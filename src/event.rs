use vstd::prelude::*;

use core::time::Duration;
use termion::event::Key;

verus! {

/// One message of the merged stream: a raw input event, or a tick of the timer.
pub enum Event<I> {
    Input(I),
    Tick,
}

/// The key that the surrounding UI reads as "quit"; nothing here inspects it.
pub const DEFAULT_EXIT_CHAR: char = 'q';

/// The interval between two ticks unless the caller picks another.
pub const DEFAULT_TICK_MILLIS: u64 = 250;

/// Settings of the event stream.
///
/// `tick_rate` must be positive: a zero interval makes the tick producer spin.
/// The constraint is the caller's to keep and is not checked here.
#[derive(Debug, Clone, Copy)]
pub struct Config {
    pub exit_key: Key,
    pub tick_rate: Duration,
}

impl Default for Config {
    fn default() -> (r: Config)
        ensures
            r.exit_key == Key::Char(DEFAULT_EXIT_CHAR),
            r.tick_rate == crate::outside::millis_duration(DEFAULT_TICK_MILLIS),
    {
        Config { exit_key: Key::Char(DEFAULT_EXIT_CHAR), tick_rate: Duration::from_millis(DEFAULT_TICK_MILLIS) }
    }
}

} // verus!
