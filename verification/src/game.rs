use vstd::prelude::*;
use vstd::string::StringSliceAdditionalSpecFns;

use crate::enums::{Button, GameVariable, Mode, ScreenFormat, ScreenResolution};
use crate::error::{outcome, result_view, status_error, Error, ErrorView};
use crate::state::GameState;
use crate::status::{Reply, VzdStatus};
use crate::text::{c_string, decimal, push_decimal_i64, to_cstring};

verus! {

/// The integer the C ABI uses for a boolean argument or answer.
pub open spec fn c_bool(b: bool) -> i32 {
    if b { 1 } else { 0 }
}

fn bool_to_c(b: bool) -> (v: i32)
    ensures
        v == c_bool(b),
{
    if b { 1 } else { 0 }
}

/// What [`DoomGame::new`] gives for an answer of the C constructor: an error
/// for a failing status, an engine error for a null handle, else the handle.
pub open spec fn creation_outcome<H>(status: VzdStatus, message: Seq<char>, handle: Option<H>) -> Result<H, ErrorView> {
    if status != VzdStatus::Success {
        Err(status_error(status, message))
    } else {
        match handle {
            None => Err(ErrorView::Engine("vzd_game_new returned null"@)),
            Some(h) => Ok(h),
        }
    }
}

/// What [`DoomGame::screen_format`] gives for an answer of the C getter: an
/// error for a failing status or an integer that stands for no format, else
/// the format.
pub open spec fn screen_format_outcome(status: VzdStatus, message: Seq<char>, value: i32) -> Result<ScreenFormat, ErrorView> {
    if status != VzdStatus::Success {
        Err(status_error(status, message))
    } else {
        match ScreenFormat::from_raw_value(value) {
            Some(f) => Ok(f),
            None => Err(ErrorView::Engine("unknown screen format "@ + decimal(value as int))),
        }
    }
}

/// Reading the screen format back succeeds exactly when the engine answers
/// an integer in `0..10`, and then gives the format that integer stands for.
pub proof fn lemma_screen_format_read_back(message: Seq<char>, value: i32)
    ensures
        screen_format_outcome(VzdStatus::Success, message, value) is Ok <==> 0 <= value < 10,
        screen_format_outcome(VzdStatus::Success, message, value) matches Ok(g) ==> g.raw_value() == value,
{
    crate::enums::lemma_screen_format_from_raw_value(value);
}

/// The library's half of setting and then reading the screen format: for
/// every format `f`, [`DoomGame::set_screen_format`] sends `f.raw_value()`,
/// and when the engine answers that same integer with a `Success` status,
/// [`DoomGame::screen_format`] gives `f` back.
pub proof fn lemma_screen_format_set_then_get(f: ScreenFormat, message: Seq<char>)
    ensures
        screen_format_outcome(VzdStatus::Success, message, f.raw_value()) == Ok::<ScreenFormat, ErrorView>(f),
{
    crate::enums::lemma_screen_format_raw_round_trip(f);
}

/// A created game with its error taken by its view and the game by its handle.
pub open spec fn game_view<H>(r: Result<DoomGame<H>, Error>) -> Result<H, ErrorView> {
    match r {
        Ok(g) => Ok(g.handle()),
        Err(e) => Err(e@),
    }
}

/// A state result with its error taken by its view and the snapshot by its
/// handle.
pub open spec fn state_view<S>(r: Result<Option<GameState<S>>, Error>) -> Result<Option<S>, ErrorView> {
    match r {
        Ok(Some(s)) => Ok(Some(s.handle())),
        Ok(None) => Ok(None),
        Err(e) => Err(e@),
    }
}

/// A ViZDoom game instance, owning the handle `H` of the underlying C++
/// `DoomGame` and the engine process it spawns on [`init`](DoomGame::init).
///
/// Every operation receives the C ABI function it stands for as a closure,
/// which it calls with the handle this game owns and the arguments encoded as
/// the C ABI expects; the contract states those arguments and how each answer
/// of the call becomes the returned value.
pub struct DoomGame<H> {
    raw: H,
}

/// Makes a C call that answers a value, and reads the answer.
fn ask<H, T, F: FnOnce(&H) -> Reply<T>>(raw: &H, query: F) -> (r: Result<T, Error>)
    requires
        query.requires((raw,)),
    ensures
        exists|rep: Reply<T>|
            #[trigger] query.ensures((raw,), rep)
            && result_view(r) == outcome(rep.status, rep.message@, rep.value),
{
    let rep = query(raw);
    rep.into_result()
}

/// Makes a C call that answers a C boolean, and reads it as nonzero.
fn ask_flag<H, F: FnOnce(&H) -> Reply<i32>>(raw: &H, query: F) -> (r: Result<bool, Error>)
    requires
        query.requires((raw,)),
    ensures
        exists|rep: Reply<i32>|
            #[trigger] query.ensures((raw,), rep)
            && result_view(r) == outcome(rep.status, rep.message@, rep.value != 0),
{
    let rep = query(raw);
    match rep.into_result() {
        Ok(v) => Ok(v != 0),
        Err(e) => Err(e),
    }
}

/// Encodes `text` as a C string and, if that succeeds, makes a C call with
/// it and reads the answer.
fn send_text<H, T, F: FnOnce(&H, &Vec<u8>) -> Reply<T>>(raw: &H, text: &str, call: F) -> (r: Result<T, Error>)
    requires
        c_string(text.spec_bytes()) matches Ok(sent) ==> forall|c: &Vec<u8>|
            c@ == sent ==> #[trigger] call.requires((raw, c)),
    ensures
        c_string(text.spec_bytes()) matches Err(e) ==> result_view(r) == Err::<T, ErrorView>(e),
        c_string(text.spec_bytes()) matches Ok(sent) ==> exists|c: Vec<u8>, rep: Reply<T>|
            #[trigger] call.ensures((raw, &c), rep)
            && c@ == sent
            && result_view(r) == outcome(rep.status, rep.message@, rep.value),
{
    match to_cstring(text) {
        Ok(c) => {
            let rep = call(raw, &c);
            rep.into_result()
        }
        Err(e) => Err(e),
    }
}

impl<H> DoomGame<H> {
    /// The handle this game owns.
    pub closed spec fn handle(&self) -> H {
        self.raw
    }

    /// Creates a new, uninitialized game from the answer of the C constructor
    /// `create` (`None` standing for a null handle). Configure it, then call
    /// [`init`](DoomGame::init).
    pub fn new<F: FnOnce() -> Reply<Option<H>>>(create: F) -> (r: Result<Self, Error>)
        requires
            create.requires(()),
        ensures
            exists|rep: Reply<Option<H>>|
                #[trigger] create.ensures((), rep)
                && game_view(r) == creation_outcome(rep.status, rep.message@, rep.value),
    {
        let rep = create();
        match rep.into_result() {
            Ok(Some(raw)) => Ok(DoomGame { raw }),
            Ok(None) => Err(Error::Engine(String::from_str("vzd_game_new returned null"))),
            Err(e) => Err(e),
        }
    }

    /// The configured screen format, read through the C getter `get`; an
    /// integer that stands for no format is an engine error naming it.
    pub fn screen_format<F: FnOnce(&H) -> Reply<i32>>(&self, get: F) -> (r: Result<ScreenFormat, Error>)
        requires
            get.requires((&self.handle(),)),
        ensures
            exists|rep: Reply<i32>|
                #[trigger] get.ensures((&self.handle(),), rep)
                && result_view(r) == screen_format_outcome(rep.status, rep.message@, rep.value),
    {
        let raw = ask(&self.raw, get)?;
        match ScreenFormat::from_raw(raw) {
            Some(f) => Ok(f),
            None => {
                let mut msg = String::from_str("unknown screen format ");
                push_decimal_i64(&mut msg, raw as i64);
                Err(Error::Engine(msg))
            }
        }
    }

    /// A snapshot of the current state, read through the C getter `get`
    /// (`None` standing for a null snapshot), or `None` if none is available
    /// (e.g. the episode has finished).
    pub fn state<S, F: FnOnce(&H) -> Reply<Option<S>>>(&self, get: F) -> (r: Result<Option<GameState<S>>, Error>)
        requires
            get.requires((&self.handle(),)),
        ensures
            exists|rep: Reply<Option<S>>|
                #[trigger] get.ensures((&self.handle(),), rep)
                && state_view(r) == outcome(rep.status, rep.message@, rep.value),
    {
        match ask(&self.raw, get) {
            Ok(Some(s)) => Ok(Some(GameState::from_raw(s))),
            Ok(None) => Ok(None),
            Err(e) => Err(e),
        }
    }

    /// Initializes the game, spawning the engine, through the C function `call`.
    /// Returns whether it started.
    pub fn init<F: FnOnce(&H) -> Reply<i32>>(&mut self, call: F) -> (r: Result<bool, Error>)
        requires
            call.requires((&old(self).handle(),)),
        ensures
            final(self).handle() == old(self).handle(),
            exists|rep: Reply<i32>|
                #[trigger] call.ensures((&old(self).handle(),), rep)
                && result_view(r) == outcome(rep.status, rep.message@, rep.value != 0),
    {
        proof { assert(self.handle() == self.raw); }
        ask_flag(&self.raw, call)
    }

    /// Closes the game and the engine process through the C function `call`.
    /// The game can be reconfigured and re-initialized afterwards.
    pub fn close<F: FnOnce(&H) -> Reply<()>>(&mut self, call: F) -> (r: Result<(), Error>)
        requires
            call.requires((&old(self).handle(),)),
        ensures
            final(self).handle() == old(self).handle(),
            exists|rep: Reply<()>|
                #[trigger] call.ensures((&old(self).handle(),), rep)
                && result_view(r) == outcome(rep.status, rep.message@, ()),
    {
        proof { assert(self.handle() == self.raw); }
        ask(&self.raw, call)
    }

    /// Whether the engine is currently running, read through the C getter `call`.
    pub fn is_running<F: FnOnce(&H) -> Reply<i32>>(&self, call: F) -> (r: Result<bool, Error>)
        requires
            call.requires((&self.handle(),)),
        ensures
            exists|rep: Reply<i32>|
                #[trigger] call.ensures((&self.handle(),), rep)
                && result_view(r) == outcome(rep.status, rep.message@, rep.value != 0),
    {
        proof { assert(self.handle() == self.raw); }
        ask_flag(&self.raw, call)
    }

    /// Loads a `.cfg` configuration file through the C function `call`, which
    /// receives the path as a NUL-terminated string. Returns whether all keys
    /// were valid.
    /// A text holding a NUL byte is refused with an invalid argument and never
    /// reaches `call`.
    pub fn load_config<F: FnOnce(&H, &Vec<u8>) -> Reply<i32>>(&mut self, path: &str, call: F) -> (r: Result<bool, Error>)
        requires
            c_string(path.spec_bytes()) matches Ok(sent) ==> forall|c: &Vec<u8>|
                c@ == sent ==> #[trigger] call.requires((&old(self).handle(), c)),
        ensures
            final(self).handle() == old(self).handle(),
            c_string(path.spec_bytes()) matches Err(e) ==> result_view(r) == Err::<bool, ErrorView>(e),
            c_string(path.spec_bytes()) matches Ok(sent) ==> exists|c: Vec<u8>, rep: Reply<i32>|
                #[trigger] call.ensures((&old(self).handle(), &c), rep)
                && c@ == sent
                && result_view(r) == outcome(rep.status, rep.message@, rep.value != 0),
    {
        proof { assert(self.handle() == self.raw); }
        match send_text(&self.raw, path, call) {
            Ok(v) => Ok(v != 0),
            Err(e) => Err(e),
        }
    }

    /// Applies configuration from a string (same syntax as a `.cfg` file)
    /// through the C function `call`, which receives it NUL-terminated. Returns
    /// whether all keys were valid.
    /// A text holding a NUL byte is refused with an invalid argument and never
    /// reaches `call`.
    pub fn set_config<F: FnOnce(&H, &Vec<u8>) -> Reply<i32>>(&mut self, config: &str, call: F) -> (r: Result<bool, Error>)
        requires
            c_string(config.spec_bytes()) matches Ok(sent) ==> forall|c: &Vec<u8>|
                c@ == sent ==> #[trigger] call.requires((&old(self).handle(), c)),
        ensures
            final(self).handle() == old(self).handle(),
            c_string(config.spec_bytes()) matches Err(e) ==> result_view(r) == Err::<bool, ErrorView>(e),
            c_string(config.spec_bytes()) matches Ok(sent) ==> exists|c: Vec<u8>, rep: Reply<i32>|
                #[trigger] call.ensures((&old(self).handle(), &c), rep)
                && c@ == sent
                && result_view(r) == outcome(rep.status, rep.message@, rep.value != 0),
    {
        proof { assert(self.handle() == self.raw); }
        match send_text(&self.raw, config, call) {
            Ok(v) => Ok(v != 0),
            Err(e) => Err(e),
        }
    }

    /// Sets the path to the `vizdoom` engine executable through the C function
    /// `call`, which receives it NUL-terminated.
    /// A text holding a NUL byte is refused with an invalid argument and never
    /// reaches `call`.
    pub fn set_vizdoom_path<F: FnOnce(&H, &Vec<u8>) -> Reply<()>>(&mut self, path: &str, call: F) -> (r: Result<(), Error>)
        requires
            c_string(path.spec_bytes()) matches Ok(sent) ==> forall|c: &Vec<u8>|
                c@ == sent ==> #[trigger] call.requires((&old(self).handle(), c)),
        ensures
            final(self).handle() == old(self).handle(),
            c_string(path.spec_bytes()) matches Err(e) ==> result_view(r) == Err::<(), ErrorView>(e),
            c_string(path.spec_bytes()) matches Ok(sent) ==> exists|c: Vec<u8>, rep: Reply<()>|
                #[trigger] call.ensures((&old(self).handle(), &c), rep)
                && c@ == sent
                && result_view(r) == outcome(rep.status, rep.message@, ()),
    {
        proof { assert(self.handle() == self.raw); }
        send_text(&self.raw, path, call)
    }

    /// Sets the path to the Doom IWAD game resource through the C function
    /// `call`, which receives it NUL-terminated.
    /// A text holding a NUL byte is refused with an invalid argument and never
    /// reaches `call`.
    pub fn set_doom_game_path<F: FnOnce(&H, &Vec<u8>) -> Reply<()>>(&mut self, path: &str, call: F) -> (r: Result<(), Error>)
        requires
            c_string(path.spec_bytes()) matches Ok(sent) ==> forall|c: &Vec<u8>|
                c@ == sent ==> #[trigger] call.requires((&old(self).handle(), c)),
        ensures
            final(self).handle() == old(self).handle(),
            c_string(path.spec_bytes()) matches Err(e) ==> result_view(r) == Err::<(), ErrorView>(e),
            c_string(path.spec_bytes()) matches Ok(sent) ==> exists|c: Vec<u8>, rep: Reply<()>|
                #[trigger] call.ensures((&old(self).handle(), &c), rep)
                && c@ == sent
                && result_view(r) == outcome(rep.status, rep.message@, ()),
    {
        proof { assert(self.handle() == self.raw); }
        send_text(&self.raw, path, call)
    }

    /// Sets the path to the scenario WAD through the C function `call`, which
    /// receives it NUL-terminated.
    /// A text holding a NUL byte is refused with an invalid argument and never
    /// reaches `call`.
    pub fn set_doom_scenario_path<F: FnOnce(&H, &Vec<u8>) -> Reply<()>>(&mut self, path: &str, call: F) -> (r: Result<(), Error>)
        requires
            c_string(path.spec_bytes()) matches Ok(sent) ==> forall|c: &Vec<u8>|
                c@ == sent ==> #[trigger] call.requires((&old(self).handle(), c)),
        ensures
            final(self).handle() == old(self).handle(),
            c_string(path.spec_bytes()) matches Err(e) ==> result_view(r) == Err::<(), ErrorView>(e),
            c_string(path.spec_bytes()) matches Ok(sent) ==> exists|c: Vec<u8>, rep: Reply<()>|
                #[trigger] call.ensures((&old(self).handle(), &c), rep)
                && c@ == sent
                && result_view(r) == outcome(rep.status, rep.message@, ()),
    {
        proof { assert(self.handle() == self.raw); }
        send_text(&self.raw, path, call)
    }

    /// Sets the starting map (e.g. `"map01"`) through the C function `call`,
    /// which receives it NUL-terminated.
    /// A text holding a NUL byte is refused with an invalid argument and never
    /// reaches `call`.
    pub fn set_doom_map<F: FnOnce(&H, &Vec<u8>) -> Reply<()>>(&mut self, map: &str, call: F) -> (r: Result<(), Error>)
        requires
            c_string(map.spec_bytes()) matches Ok(sent) ==> forall|c: &Vec<u8>|
                c@ == sent ==> #[trigger] call.requires((&old(self).handle(), c)),
        ensures
            final(self).handle() == old(self).handle(),
            c_string(map.spec_bytes()) matches Err(e) ==> result_view(r) == Err::<(), ErrorView>(e),
            c_string(map.spec_bytes()) matches Ok(sent) ==> exists|c: Vec<u8>, rep: Reply<()>|
                #[trigger] call.ensures((&old(self).handle(), &c), rep)
                && c@ == sent
                && result_view(r) == outcome(rep.status, rep.message@, ()),
    {
        proof { assert(self.handle() == self.raw); }
        send_text(&self.raw, map, call)
    }

    /// Sets the engine [`Mode`] through the C function `call`, which receives
    /// its integer.
    pub fn set_mode<F: FnOnce(&H, i32) -> Reply<()>>(&mut self, mode: Mode, call: F) -> (r: Result<(), Error>)
        requires
            call.requires((&old(self).handle(), mode.raw_value())),
        ensures
            final(self).handle() == old(self).handle(),
            exists|rep: Reply<()>|
                #[trigger] call.ensures((&old(self).handle(), mode.raw_value()), rep)
                && result_view(r) == outcome(rep.status, rep.message@, ()),
    {
        let rep = call(&self.raw, mode.to_raw());
        rep.into_result()
    }

    /// Sets the RNG seed for determinism through the C function `call`.
    pub fn set_seed<F: FnOnce(&H, u32) -> Reply<()>>(&mut self, seed: u32, call: F) -> (r: Result<(), Error>)
        requires
            call.requires((&old(self).handle(), seed)),
        ensures
            final(self).handle() == old(self).handle(),
            exists|rep: Reply<()>|
                #[trigger] call.ensures((&old(self).handle(), seed), rep)
                && result_view(r) == outcome(rep.status, rep.message@, ()),
    {
        let rep = call(&self.raw, seed);
        rep.into_result()
    }

    /// Sets the episode timeout in tics through the C function `call`.
    pub fn set_episode_timeout<F: FnOnce(&H, u32) -> Reply<()>>(&mut self, tics: u32, call: F) -> (r: Result<(), Error>)
        requires
            call.requires((&old(self).handle(), tics)),
        ensures
            final(self).handle() == old(self).handle(),
            exists|rep: Reply<()>|
                #[trigger] call.ensures((&old(self).handle(), tics), rep)
                && result_view(r) == outcome(rep.status, rep.message@, ()),
    {
        let rep = call(&self.raw, tics);
        rep.into_result()
    }

    /// Sets the number of tics skipped at the start of each episode through the
    /// C function `call`.
    pub fn set_episode_start_time<F: FnOnce(&H, u32) -> Reply<()>>(&mut self, tics: u32, call: F) -> (r: Result<(), Error>)
        requires
            call.requires((&old(self).handle(), tics)),
        ensures
            final(self).handle() == old(self).handle(),
            exists|rep: Reply<()>|
                #[trigger] call.ensures((&old(self).handle(), tics), rep)
                && result_view(r) == outcome(rep.status, rep.message@, ()),
    {
        let rep = call(&self.raw, tics);
        rep.into_result()
    }

    /// Sets the screen resolution through the C function `call`, which receives
    /// its integer.
    pub fn set_screen_resolution<F: FnOnce(&H, i32) -> Reply<()>>(&mut self, resolution: ScreenResolution, call: F) -> (r: Result<(), Error>)
        requires
            call.requires((&old(self).handle(), resolution.raw_value())),
        ensures
            final(self).handle() == old(self).handle(),
            exists|rep: Reply<()>|
                #[trigger] call.ensures((&old(self).handle(), resolution.raw_value()), rep)
                && result_view(r) == outcome(rep.status, rep.message@, ()),
    {
        let rep = call(&self.raw, resolution.to_raw());
        rep.into_result()
    }

    /// Sets the screen pixel format through the C function `call`, which
    /// receives its integer.
    pub fn set_screen_format<F: FnOnce(&H, i32) -> Reply<()>>(&mut self, format: ScreenFormat, call: F) -> (r: Result<(), Error>)
        requires
            call.requires((&old(self).handle(), format.raw_value())),
        ensures
            final(self).handle() == old(self).handle(),
            exists|rep: Reply<()>|
                #[trigger] call.ensures((&old(self).handle(), format.raw_value()), rep)
                && result_view(r) == outcome(rep.status, rep.message@, ()),
    {
        let rep = call(&self.raw, format.to_raw());
        rep.into_result()
    }

    /// Shows or hides the engine window through the C function `call`,
    /// which receives `1` for `true` and `0` for `false`.
    pub fn set_window_visible<F: FnOnce(&H, i32) -> Reply<()>>(&mut self, visible: bool, call: F) -> (r: Result<(), Error>)
        requires
            call.requires((&old(self).handle(), c_bool(visible))),
        ensures
            final(self).handle() == old(self).handle(),
            exists|rep: Reply<()>|
                #[trigger] call.ensures((&old(self).handle(), c_bool(visible)), rep)
                && result_view(r) == outcome(rep.status, rep.message@, ()),
    {
        let rep = call(&self.raw, bool_to_c(visible));
        rep.into_result()
    }

    /// Enables or disables HUD rendering through the C function `call`,
    /// which receives `1` for `true` and `0` for `false`.
    pub fn set_render_hud<F: FnOnce(&H, i32) -> Reply<()>>(&mut self, hud: bool, call: F) -> (r: Result<(), Error>)
        requires
            call.requires((&old(self).handle(), c_bool(hud))),
        ensures
            final(self).handle() == old(self).handle(),
            exists|rep: Reply<()>|
                #[trigger] call.ensures((&old(self).handle(), c_bool(hud)), rep)
                && result_view(r) == outcome(rep.status, rep.message@, ()),
    {
        let rep = call(&self.raw, bool_to_c(hud));
        rep.into_result()
    }

    /// Enables or disables the depth buffer through the C function `call`,
    /// which receives `1` for `true` and `0` for `false`.
    pub fn set_depth_buffer_enabled<F: FnOnce(&H, i32) -> Reply<()>>(&mut self, enabled: bool, call: F) -> (r: Result<(), Error>)
        requires
            call.requires((&old(self).handle(), c_bool(enabled))),
        ensures
            final(self).handle() == old(self).handle(),
            exists|rep: Reply<()>|
                #[trigger] call.ensures((&old(self).handle(), c_bool(enabled)), rep)
                && result_view(r) == outcome(rep.status, rep.message@, ()),
    {
        let rep = call(&self.raw, bool_to_c(enabled));
        rep.into_result()
    }

    /// Enables or disables the labels buffer through the C function `call`,
    /// which receives `1` for `true` and `0` for `false`.
    pub fn set_labels_buffer_enabled<F: FnOnce(&H, i32) -> Reply<()>>(&mut self, enabled: bool, call: F) -> (r: Result<(), Error>)
        requires
            call.requires((&old(self).handle(), c_bool(enabled))),
        ensures
            final(self).handle() == old(self).handle(),
            exists|rep: Reply<()>|
                #[trigger] call.ensures((&old(self).handle(), c_bool(enabled)), rep)
                && result_view(r) == outcome(rep.status, rep.message@, ()),
    {
        let rep = call(&self.raw, bool_to_c(enabled));
        rep.into_result()
    }

    /// Enables or disables the automap buffer through the C function `call`,
    /// which receives `1` for `true` and `0` for `false`.
    pub fn set_automap_buffer_enabled<F: FnOnce(&H, i32) -> Reply<()>>(&mut self, enabled: bool, call: F) -> (r: Result<(), Error>)
        requires
            call.requires((&old(self).handle(), c_bool(enabled))),
        ensures
            final(self).handle() == old(self).handle(),
            exists|rep: Reply<()>|
                #[trigger] call.ensures((&old(self).handle(), c_bool(enabled)), rep)
                && result_view(r) == outcome(rep.status, rep.message@, ()),
    {
        let rep = call(&self.raw, bool_to_c(enabled));
        rep.into_result()
    }

    /// Enables or disables the audio buffer through the C function `call`,
    /// which receives `1` for `true` and `0` for `false`.
    pub fn set_audio_buffer_enabled<F: FnOnce(&H, i32) -> Reply<()>>(&mut self, enabled: bool, call: F) -> (r: Result<(), Error>)
        requires
            call.requires((&old(self).handle(), c_bool(enabled))),
        ensures
            final(self).handle() == old(self).handle(),
            exists|rep: Reply<()>|
                #[trigger] call.ensures((&old(self).handle(), c_bool(enabled)), rep)
                && result_view(r) == outcome(rep.status, rep.message@, ()),
    {
        let rep = call(&self.raw, bool_to_c(enabled));
        rep.into_result()
    }

    /// Sets the per-tic living reward through the C function `call`.
    pub fn set_living_reward<R, F: FnOnce(&H, R) -> Reply<()>>(&mut self, reward: R, call: F) -> (r: Result<(), Error>)
        requires
            call.requires((&old(self).handle(), reward)),
        ensures
            final(self).handle() == old(self).handle(),
            exists|rep: Reply<()>|
                #[trigger] call.ensures((&old(self).handle(), reward), rep)
                && result_view(r) == outcome(rep.status, rep.message@, ()),
    {
        let rep = call(&self.raw, reward);
        rep.into_result()
    }

    /// Sets the death penalty through the C function `call`.
    pub fn set_death_penalty<R, F: FnOnce(&H, R) -> Reply<()>>(&mut self, penalty: R, call: F) -> (r: Result<(), Error>)
        requires
            call.requires((&old(self).handle(), penalty)),
        ensures
            final(self).handle() == old(self).handle(),
            exists|rep: Reply<()>|
                #[trigger] call.ensures((&old(self).handle(), penalty), rep)
                && result_view(r) == outcome(rep.status, rep.message@, ()),
    {
        let rep = call(&self.raw, penalty);
        rep.into_result()
    }

    /// Adds an available button with no delta maximum through the C function
    /// `call`, which receives the button's integer and supplies the C ABI's
    /// "no maximum" value (`-1.0`) itself.
    pub fn add_available_button<F: FnOnce(&H, i32) -> Reply<()>>(&mut self, button: Button, call: F) -> (r: Result<(), Error>)
        requires
            call.requires((&old(self).handle(), button.raw_value())),
        ensures
            final(self).handle() == old(self).handle(),
            exists|rep: Reply<()>|
                #[trigger] call.ensures((&old(self).handle(), button.raw_value()), rep)
                && result_view(r) == outcome(rep.status, rep.message@, ()),
    {
        let rep = call(&self.raw, button.to_raw());
        rep.into_result()
    }

    /// Adds an available button with a maximum delta value (`-1.0` for the
    /// default) through the C function `call`, which receives the button's
    /// integer and the maximum.
    pub fn add_available_button_with_max<M, F: FnOnce(&H, i32, M) -> Reply<()>>(&mut self, button: Button, max_value: M, call: F) -> (r: Result<(), Error>)
        requires
            call.requires((&old(self).handle(), button.raw_value(), max_value)),
        ensures
            final(self).handle() == old(self).handle(),
            exists|rep: Reply<()>|
                #[trigger] call.ensures((&old(self).handle(), button.raw_value(), max_value), rep)
                && result_view(r) == outcome(rep.status, rep.message@, ()),
    {
        let rep = call(&self.raw, button.to_raw(), max_value);
        rep.into_result()
    }

    /// Clears the list of available buttons through the C function `call`.
    pub fn clear_available_buttons<F: FnOnce(&H) -> Reply<()>>(&mut self, call: F) -> (r: Result<(), Error>)
        requires
            call.requires((&old(self).handle(),)),
        ensures
            final(self).handle() == old(self).handle(),
            exists|rep: Reply<()>|
                #[trigger] call.ensures((&old(self).handle(),), rep)
                && result_view(r) == outcome(rep.status, rep.message@, ()),
    {
        proof { assert(self.handle() == self.raw); }
        ask(&self.raw, call)
    }

    /// Number of available buttons (the expected action vector length), read
    /// through the C getter `call`.
    pub fn available_buttons_size<F: FnOnce(&H) -> Reply<usize>>(&self, call: F) -> (r: Result<usize, Error>)
        requires
            call.requires((&self.handle(),)),
        ensures
            exists|rep: Reply<usize>|
                #[trigger] call.ensures((&self.handle(),), rep)
                && result_view(r) == outcome(rep.status, rep.message@, rep.value),
    {
        proof { assert(self.handle() == self.raw); }
        ask(&self.raw, call)
    }

    /// Adds an available game variable to the state vector through the C
    /// function `call`, which receives the variable's integer.
    pub fn add_available_game_variable<F: FnOnce(&H, i32) -> Reply<()>>(&mut self, variable: GameVariable, call: F) -> (r: Result<(), Error>)
        requires
            call.requires((&old(self).handle(), variable.raw_value())),
        ensures
            final(self).handle() == old(self).handle(),
            exists|rep: Reply<()>|
                #[trigger] call.ensures((&old(self).handle(), variable.raw_value()), rep)
                && result_view(r) == outcome(rep.status, rep.message@, ()),
    {
        let rep = call(&self.raw, variable.to_raw());
        rep.into_result()
    }

    /// Clears the list of available game variables through the C function
    /// `call`.
    pub fn clear_available_game_variables<F: FnOnce(&H) -> Reply<()>>(&mut self, call: F) -> (r: Result<(), Error>)
        requires
            call.requires((&old(self).handle(),)),
        ensures
            final(self).handle() == old(self).handle(),
            exists|rep: Reply<()>|
                #[trigger] call.ensures((&old(self).handle(),), rep)
                && result_view(r) == outcome(rep.status, rep.message@, ()),
    {
        proof { assert(self.handle() == self.raw); }
        ask(&self.raw, call)
    }

    /// Reads the current value of a game variable through the C getter `call`,
    /// which receives the variable's integer.
    pub fn get_game_variable<V, F: FnOnce(&H, i32) -> Reply<V>>(&self, variable: GameVariable, call: F) -> (r: Result<V, Error>)
        requires
            call.requires((&self.handle(), variable.raw_value())),
        ensures
            exists|rep: Reply<V>|
                #[trigger] call.ensures((&self.handle(), variable.raw_value()), rep)
                && result_view(r) == outcome(rep.status, rep.message@, rep.value),
    {
        let rep = call(&self.raw, variable.to_raw());
        rep.into_result()
    }

    /// Starts a new episode without recording through the C function `call`
    /// (which passes no recording path).
    pub fn new_episode<F: FnOnce(&H) -> Reply<()>>(&mut self, call: F) -> (r: Result<(), Error>)
        requires
            call.requires((&old(self).handle(),)),
        ensures
            final(self).handle() == old(self).handle(),
            exists|rep: Reply<()>|
                #[trigger] call.ensures((&old(self).handle(),), rep)
                && result_view(r) == outcome(rep.status, rep.message@, ()),
    {
        proof { assert(self.handle() == self.raw); }
        ask(&self.raw, call)
    }

    /// Starts a new episode, recording it to `path`, through the C function
    /// `call`, which receives the path NUL-terminated.
    /// A text holding a NUL byte is refused with an invalid argument and never
    /// reaches `call`.
    pub fn new_episode_with_recording<F: FnOnce(&H, &Vec<u8>) -> Reply<()>>(&mut self, path: &str, call: F) -> (r: Result<(), Error>)
        requires
            c_string(path.spec_bytes()) matches Ok(sent) ==> forall|c: &Vec<u8>|
                c@ == sent ==> #[trigger] call.requires((&old(self).handle(), c)),
        ensures
            final(self).handle() == old(self).handle(),
            c_string(path.spec_bytes()) matches Err(e) ==> result_view(r) == Err::<(), ErrorView>(e),
            c_string(path.spec_bytes()) matches Ok(sent) ==> exists|c: Vec<u8>, rep: Reply<()>|
                #[trigger] call.ensures((&old(self).handle(), &c), rep)
                && c@ == sent
                && result_view(r) == outcome(rep.status, rep.message@, ()),
    {
        proof { assert(self.handle() == self.raw); }
        send_text(&self.raw, path, call)
    }

    /// Whether the current state is the first of the episode, read through the
    /// C getter `call`.
    pub fn is_new_episode<F: FnOnce(&H) -> Reply<i32>>(&self, call: F) -> (r: Result<bool, Error>)
        requires
            call.requires((&self.handle(),)),
        ensures
            exists|rep: Reply<i32>|
                #[trigger] call.ensures((&self.handle(),), rep)
                && result_view(r) == outcome(rep.status, rep.message@, rep.value != 0),
    {
        proof { assert(self.handle() == self.raw); }
        ask_flag(&self.raw, call)
    }

    /// Whether the episode has finished, read through the C getter `call`.
    pub fn is_episode_finished<F: FnOnce(&H) -> Reply<i32>>(&self, call: F) -> (r: Result<bool, Error>)
        requires
            call.requires((&self.handle(),)),
        ensures
            exists|rep: Reply<i32>|
                #[trigger] call.ensures((&self.handle(),), rep)
                && result_view(r) == outcome(rep.status, rep.message@, rep.value != 0),
    {
        proof { assert(self.handle() == self.raw); }
        ask_flag(&self.raw, call)
    }

    /// Whether the episode ended due to the timeout, read through the C getter
    /// `call`.
    pub fn is_episode_timeout_reached<F: FnOnce(&H) -> Reply<i32>>(&self, call: F) -> (r: Result<bool, Error>)
        requires
            call.requires((&self.handle(),)),
        ensures
            exists|rep: Reply<i32>|
                #[trigger] call.ensures((&self.handle(),), rep)
                && result_view(r) == outcome(rep.status, rep.message@, rep.value != 0),
    {
        proof { assert(self.handle() == self.raw); }
        ask_flag(&self.raw, call)
    }

    /// Whether the player is dead, read through the C getter `call`.
    pub fn is_player_dead<F: FnOnce(&H) -> Reply<i32>>(&self, call: F) -> (r: Result<bool, Error>)
        requires
            call.requires((&self.handle(),)),
        ensures
            exists|rep: Reply<i32>|
                #[trigger] call.ensures((&self.handle(),), rep)
                && result_view(r) == outcome(rep.status, rep.message@, rep.value != 0),
    {
        proof { assert(self.handle() == self.raw); }
        ask_flag(&self.raw, call)
    }

    /// Respawns the player (in applicable modes) through the C function `call`.
    pub fn respawn_player<F: FnOnce(&H) -> Reply<()>>(&mut self, call: F) -> (r: Result<(), Error>)
        requires
            call.requires((&old(self).handle(),)),
        ensures
            final(self).handle() == old(self).handle(),
            exists|rep: Reply<()>|
                #[trigger] call.ensures((&old(self).handle(),), rep)
                && result_view(r) == outcome(rep.status, rep.message@, ()),
    {
        proof { assert(self.handle() == self.raw); }
        ask(&self.raw, call)
    }

    /// Sets the action to be applied on the next
    /// [`advance_action`](Self::advance_action) through the C function `call`,
    /// which receives the action values.
    pub fn set_action<A, F: FnOnce(&H, &[A]) -> Reply<()>>(&mut self, action: &[A], call: F) -> (r: Result<(), Error>)
        requires
            call.requires((&old(self).handle(), action)),
        ensures
            final(self).handle() == old(self).handle(),
            exists|rep: Reply<()>|
                #[trigger] call.ensures((&old(self).handle(), action), rep)
                && result_view(r) == outcome(rep.status, rep.message@, ()),
    {
        let rep = call(&self.raw, action);
        rep.into_result()
    }

    /// Advances the simulation by `tics`, optionally updating the state, through
    /// the C function `call`, which receives `tics` and `1` or `0` for
    /// `update_state`.
    pub fn advance_action<F: FnOnce(&H, u32, i32) -> Reply<()>>(&mut self, tics: u32, update_state: bool, call: F) -> (r: Result<(), Error>)
        requires
            call.requires((&old(self).handle(), tics, c_bool(update_state))),
        ensures
            final(self).handle() == old(self).handle(),
            exists|rep: Reply<()>|
                #[trigger] call.ensures((&old(self).handle(), tics, c_bool(update_state)), rep)
                && result_view(r) == outcome(rep.status, rep.message@, ()),
    {
        let rep = call(&self.raw, tics, bool_to_c(update_state));
        rep.into_result()
    }

    /// Applies `action` for `tics` tics through the C function `call` and
    /// returns the reward gained.
    pub fn make_action<A, R, F: FnOnce(&H, &[A], u32) -> Reply<R>>(&mut self, action: &[A], tics: u32, call: F) -> (r: Result<R, Error>)
        requires
            call.requires((&old(self).handle(), action, tics)),
        ensures
            final(self).handle() == old(self).handle(),
            exists|rep: Reply<R>|
                #[trigger] call.ensures((&old(self).handle(), action, tics), rep)
                && result_view(r) == outcome(rep.status, rep.message@, rep.value),
    {
        let rep = call(&self.raw, action, tics);
        rep.into_result()
    }

    /// The reward from the last action, read through the C getter `call`.
    pub fn last_reward<R, F: FnOnce(&H) -> Reply<R>>(&self, call: F) -> (r: Result<R, Error>)
        requires
            call.requires((&self.handle(),)),
        ensures
            exists|rep: Reply<R>|
                #[trigger] call.ensures((&self.handle(),), rep)
                && result_view(r) == outcome(rep.status, rep.message@, rep.value),
    {
        proof { assert(self.handle() == self.raw); }
        ask(&self.raw, call)
    }

    /// The total reward accumulated this episode, read through the C getter
    /// `call`.
    pub fn total_reward<R, F: FnOnce(&H) -> Reply<R>>(&self, call: F) -> (r: Result<R, Error>)
        requires
            call.requires((&self.handle(),)),
        ensures
            exists|rep: Reply<R>|
                #[trigger] call.ensures((&self.handle(),), rep)
                && result_view(r) == outcome(rep.status, rep.message@, rep.value),
    {
        proof { assert(self.handle() == self.raw); }
        ask(&self.raw, call)
    }

    /// Screen width in pixels, read through the C getter `call`.
    pub fn screen_width<F: FnOnce(&H) -> Reply<i32>>(&self, call: F) -> (r: Result<i32, Error>)
        requires
            call.requires((&self.handle(),)),
        ensures
            exists|rep: Reply<i32>|
                #[trigger] call.ensures((&self.handle(),), rep)
                && result_view(r) == outcome(rep.status, rep.message@, rep.value),
    {
        proof { assert(self.handle() == self.raw); }
        ask(&self.raw, call)
    }

    /// Screen height in pixels, read through the C getter `call`.
    pub fn screen_height<F: FnOnce(&H) -> Reply<i32>>(&self, call: F) -> (r: Result<i32, Error>)
        requires
            call.requires((&self.handle(),)),
        ensures
            exists|rep: Reply<i32>|
                #[trigger] call.ensures((&self.handle(),), rep)
                && result_view(r) == outcome(rep.status, rep.message@, rep.value),
    {
        proof { assert(self.handle() == self.raw); }
        ask(&self.raw, call)
    }

    /// Number of channels in the screen buffer, read through the C getter
    /// `call`.
    pub fn screen_channels<F: FnOnce(&H) -> Reply<i32>>(&self, call: F) -> (r: Result<i32, Error>)
        requires
            call.requires((&self.handle(),)),
        ensures
            exists|rep: Reply<i32>|
                #[trigger] call.ensures((&self.handle(),), rep)
                && result_view(r) == outcome(rep.status, rep.message@, rep.value),
    {
        proof { assert(self.handle() == self.raw); }
        ask(&self.raw, call)
    }

    /// Total size of the screen buffer in bytes, read through the C getter
    /// `call`.
    pub fn screen_size<F: FnOnce(&H) -> Reply<usize>>(&self, call: F) -> (r: Result<usize, Error>)
        requires
            call.requires((&self.handle(),)),
        ensures
            exists|rep: Reply<usize>|
                #[trigger] call.ensures((&self.handle(),), rep)
                && result_view(r) == outcome(rep.status, rep.message@, rep.value),
    {
        proof { assert(self.handle() == self.raw); }
        ask(&self.raw, call)
    }
}

} // verus!
