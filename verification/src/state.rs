use vstd::prelude::*;

use crate::error::{outcome, Error, ErrorView};
use crate::status::Reply;

verus! {

/// The elements of a buffer the C ABI handed out, `None` standing for a null
/// pointer: a null pointer (buffer not enabled) gives no elements.
pub open spec fn buffer_contents<T>(data: Option<Vec<T>>) -> Seq<T> {
    match data {
        None => Seq::empty(),
        Some(v) => v@,
    }
}

/// A buffer that is not enabled (handed out as a null pointer) reads as an
/// empty buffer, and an enabled one as exactly the elements handed out.
pub proof fn lemma_disabled_buffer_is_empty<T>(message: Seq<char>, data: Option<Vec<T>>)
    ensures
        data is None ==> outcome(crate::status::VzdStatus::Success, message, buffer_contents(data)) == Ok::<Seq<T>, ErrorView>(Seq::empty()),
        data matches Some(v) ==> outcome(crate::status::VzdStatus::Success, message, buffer_contents(data)) == Ok::<Seq<T>, ErrorView>(v@),
{
}

/// A buffer result with its error taken by its view and the buffer by its
/// elements.
pub open spec fn buffer_view<T>(r: Result<Vec<T>, Error>) -> Result<Seq<T>, ErrorView> {
    match r {
        Ok(v) => Ok(v@),
        Err(e) => Err(e@),
    }
}

/// Builds a buffer from what the C ABI handed out: a null pointer (buffer
/// not enabled) yields an empty buffer.
fn slice_from_parts<T>(data: Option<Vec<T>>) -> (v: Vec<T>)
    ensures
        v@ == buffer_contents(data),
{
    match data {
        None => Vec::new(),
        Some(v) => v,
    }
}

/// An owned snapshot of the game state at a single tic, owning the handle `S`
/// of the underlying C++ state copy.
///
/// Every accessor receives the C ABI function it stands for as a closure,
/// which it calls with the handle this snapshot owns; the contract states how
/// each answer of the call becomes the returned value.
pub struct GameState<S> {
    raw: S,
}

impl<S> GameState<S> {
    /// The handle this snapshot owns.
    pub closed spec fn handle(&self) -> S {
        self.raw
    }

    /// Wraps a non-null raw state handle. The caller transfers ownership.
    pub fn from_raw(raw: S) -> (s: Self)
        ensures
            s.handle() == raw,
    {
        GameState { raw }
    }

    fn read<T, F: FnOnce(&S) -> Reply<T>>(&self, call: F) -> (r: Result<T, Error>)
        requires
            call.requires((&self.handle(),)),
        ensures
            exists|rep: Reply<T>|
                #[trigger] call.ensures((&self.handle(),), rep)
                && crate::error::result_view(r) == outcome(rep.status, rep.message@, rep.value),
    {
        let rep = call(&self.raw);
        rep.into_result()
    }

    fn read_buffer<T, F: FnOnce(&S) -> Reply<Option<Vec<T>>>>(&self, call: F) -> (r: Result<Vec<T>, Error>)
        requires
            call.requires((&self.handle(),)),
        ensures
            exists|rep: Reply<Option<Vec<T>>>|
                #[trigger] call.ensures((&self.handle(),), rep)
                && buffer_view(r) == outcome(rep.status, rep.message@, buffer_contents(rep.value)),
    {
        let rep = call(&self.raw);
        match rep.into_result() {
            Ok(data) => Ok(slice_from_parts(data)),
            Err(e) => Err(e),
        }
    }

    /// Sequential state number within the episode, read through the C getter `call`.
    pub fn number<F: FnOnce(&S) -> Reply<u32>>(&self, call: F) -> (r: Result<u32, Error>)
        requires
            call.requires((&self.handle(),)),
        ensures
            exists|rep: Reply<u32>|
                #[trigger] call.ensures((&self.handle(),), rep)
                && crate::error::result_view(r) == outcome(rep.status, rep.message@, rep.value),
    {
        self.read(call)
    }

    /// Engine tic at which this state was captured, read through the C getter `call`.
    pub fn tic<F: FnOnce(&S) -> Reply<u32>>(&self, call: F) -> (r: Result<u32, Error>)
        requires
            call.requires((&self.handle(),)),
        ensures
            exists|rep: Reply<u32>|
                #[trigger] call.ensures((&self.handle(),), rep)
                && crate::error::result_view(r) == outcome(rep.status, rep.message@, rep.value),
    {
        self.read(call)
    }

    /// The available game variables, in the order they were registered, read through the C accessor `call` (`None` standing for a null
    /// pointer, which gives an empty buffer).
    pub fn game_variables<V, F: FnOnce(&S) -> Reply<Option<Vec<V>>>>(&self, call: F) -> (r: Result<Vec<V>, Error>)
        requires
            call.requires((&self.handle(),)),
        ensures
            exists|rep: Reply<Option<Vec<V>>>|
                #[trigger] call.ensures((&self.handle(),), rep)
                && buffer_view(r) == outcome(rep.status, rep.message@, buffer_contents(rep.value)),
    {
        self.read_buffer(call)
    }

    /// The main screen buffer. Layout depends on the configured screen format, read through the C accessor `call` (`None` standing for a null
    /// pointer, which gives an empty buffer).
    pub fn screen_buffer<F: FnOnce(&S) -> Reply<Option<Vec<u8>>>>(&self, call: F) -> (r: Result<Vec<u8>, Error>)
        requires
            call.requires((&self.handle(),)),
        ensures
            exists|rep: Reply<Option<Vec<u8>>>|
                #[trigger] call.ensures((&self.handle(),), rep)
                && buffer_view(r) == outcome(rep.status, rep.message@, buffer_contents(rep.value)),
    {
        self.read_buffer(call)
    }

    /// The depth buffer, or an empty buffer when not enabled, read through the C accessor `call` (`None` standing for a null
    /// pointer, which gives an empty buffer).
    pub fn depth_buffer<F: FnOnce(&S) -> Reply<Option<Vec<u8>>>>(&self, call: F) -> (r: Result<Vec<u8>, Error>)
        requires
            call.requires((&self.handle(),)),
        ensures
            exists|rep: Reply<Option<Vec<u8>>>|
                #[trigger] call.ensures((&self.handle(),), rep)
                && buffer_view(r) == outcome(rep.status, rep.message@, buffer_contents(rep.value)),
    {
        self.read_buffer(call)
    }

    /// The labels buffer, or an empty buffer when not enabled, read through the C accessor `call` (`None` standing for a null
    /// pointer, which gives an empty buffer).
    pub fn labels_buffer<F: FnOnce(&S) -> Reply<Option<Vec<u8>>>>(&self, call: F) -> (r: Result<Vec<u8>, Error>)
        requires
            call.requires((&self.handle(),)),
        ensures
            exists|rep: Reply<Option<Vec<u8>>>|
                #[trigger] call.ensures((&self.handle(),), rep)
                && buffer_view(r) == outcome(rep.status, rep.message@, buffer_contents(rep.value)),
    {
        self.read_buffer(call)
    }

    /// The automap buffer, or an empty buffer when not enabled, read through the C accessor `call` (`None` standing for a null
    /// pointer, which gives an empty buffer).
    pub fn automap_buffer<F: FnOnce(&S) -> Reply<Option<Vec<u8>>>>(&self, call: F) -> (r: Result<Vec<u8>, Error>)
        requires
            call.requires((&self.handle(),)),
        ensures
            exists|rep: Reply<Option<Vec<u8>>>|
                #[trigger] call.ensures((&self.handle(),), rep)
                && buffer_view(r) == outcome(rep.status, rep.message@, buffer_contents(rep.value)),
    {
        self.read_buffer(call)
    }

    /// The audio buffer (interleaved stereo samples), or empty when not enabled, read through the C accessor `call` (`None` standing for a null
    /// pointer, which gives an empty buffer).
    pub fn audio_buffer<F: FnOnce(&S) -> Reply<Option<Vec<i16>>>>(&self, call: F) -> (r: Result<Vec<i16>, Error>)
        requires
            call.requires((&self.handle(),)),
        ensures
            exists|rep: Reply<Option<Vec<i16>>>|
                #[trigger] call.ensures((&self.handle(),), rep)
                && buffer_view(r) == outcome(rep.status, rep.message@, buffer_contents(rep.value)),
    {
        self.read_buffer(call)
    }
}

} // verus!
