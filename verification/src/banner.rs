//! Terminal banner: colorful Batman ASCII art with a random quote on each open.

use crate::chars::{push_str, string_of};
use vstd::prelude::*;

verus! {

/// SGR cyan.
pub const COLOR_CYAN: &'static str = "\x1b[36m";
/// SGR magenta.
pub const COLOR_PURPLE: &'static str = "\x1b[35m";
/// SGR yellow.
pub const COLOR_YELLOW: &'static str = "\x1b[33m";
/// SGR green.
pub const COLOR_GREEN: &'static str = "\x1b[32m";
/// SGR bold.
pub const COLOR_BOLD: &'static str = "\x1b[1m";
/// SGR reset.
pub const COLOR_RESET: &'static str = "\x1b[0m";

/// Pixel-art wordmark for `openBatarangs`.
pub const OPENBATARANGS_ART: &'static str = " █  ██  ███ █ █ ██   █  ███  █  ██   █  █ █  ██  ██\n█ █ █ █ █   ███ █ █ █ █  █  █ █ █ █ █ █ ███ █   █  \n█ █ ██  ██  █ █ ██  ███  █  ███ ██  ███ █ █ █ █  █ \n█ █ █   █   █ █ █ █ █ █  █  █ █ █ █ █ █ █ █ █ █   █\n █  █   ███ █ █ ██  █ █  █  █ █ █ █ █ █ █ █  ██ ██ ";

/// The bat emblem drawn under the wordmark.
pub const BATMAN_EMBLEM: &'static str = "          ______\n       _-'      '-_\n     -'            '-\n    /   |      |    \\\n   |  __|  __  |__   |\n   | |  | |  | |  |  |\n   | |  | |  | |  |  |\n   | |__| |__| |__|  |\n    \\                /\n     '-.__________.-'\n";

/// Number of startup quotes.
pub const QUOTE_COUNT: usize = 10;

/// Random Batman quotes shown at startup.
pub const BATMAN_QUOTES: [&'static str; 10] = [
    "I am vengeance. I am the night. I am Batman!",
    "It's not who I am underneath, but what I do that defines me.",
    "The night is darkest just before the dawn.",
    "Why do we fall, sir? So that we can learn to pick ourselves up.",
    "Our greatest glory is not in never falling, but in rising every time we fall.",
    "You either die a hero, or you live long enough to see yourself become the villain.",
    "A hero can be anyone, even a man doing something as simple and reassuring as putting a coat around a young boy's shoulders.",
    "I wear a mask. And that mask is not to hide who I am, but to create what I am.",
    "Criminals are a superstitious, cowardly lot.",
    "Endure, Master Wayne. Take it. They'll hate you for it, but that's the point of Batman.",
];

/// Colors cycled through for the random quote, one per launch.
pub const QUOTE_COLORS: [&'static str; 4] = [COLOR_YELLOW, COLOR_CYAN, COLOR_GREEN, COLOR_PURPLE];

/// The banner printed when quote `index` is picked: the wordmark, the
/// emblem, then the quote in its color.
pub open spec fn banner_with(index: int) -> Seq<char> {
    COLOR_CYAN@ + COLOR_BOLD@ + OPENBATARANGS_ART@ + COLOR_RESET@ + "\n"@ + COLOR_PURPLE@
        + COLOR_BOLD@ + BATMAN_EMBLEM@ + COLOR_RESET@ + "\n"@ + QUOTE_COLORS@[index % 4]@
        + "🦇 "@ + BATMAN_QUOTES@[index]@ + COLOR_RESET@ + "\n"@
}

/// The banner for quote number `index` (`index < QUOTE_COUNT`).
pub fn banner_for_quote(index: usize) -> (result: String)
    requires
        index < QUOTE_COUNT,
    ensures
        result@ == banner_with(index as int),
{
    let mut out: Vec<char> = Vec::new();
    push_str(&mut out, COLOR_CYAN);
    push_str(&mut out, COLOR_BOLD);
    push_str(&mut out, OPENBATARANGS_ART);
    push_str(&mut out, COLOR_RESET);
    push_str(&mut out, "\n");
    push_str(&mut out, COLOR_PURPLE);
    push_str(&mut out, COLOR_BOLD);
    push_str(&mut out, BATMAN_EMBLEM);
    push_str(&mut out, COLOR_RESET);
    push_str(&mut out, "\n");
    push_str(&mut out, QUOTE_COLORS[index % 4]);
    push_str(&mut out, "🦇 ");
    push_str(&mut out, BATMAN_QUOTES[index]);
    push_str(&mut out, COLOR_RESET);
    push_str(&mut out, "\n");
    string_of(out.as_slice())
}

/// Sub-second nanoseconds of the current wall-clock time
/// (`SystemTime::now().duration_since(UNIX_EPOCH)`, 0 when the clock is
/// before the epoch). The value depends on the time, so nothing is stated.
#[verifier::external_body]
fn clock_subsec_nanos() -> u32 {
    std::time::SystemTime::now()
        .duration_since(std::time::UNIX_EPOCH)
        .map(|duration| duration.subsec_nanos())
        .unwrap_or(0)
}

/// The quote index picked for a clock reading of `nanos` sub-second
/// nanoseconds.
pub fn quote_index_for(nanos: u32) -> (result: usize)
    ensures
        result == nanos as int % QUOTE_COUNT as int,
{
    (nanos as usize) % QUOTE_COUNT
}

/// Pick a quote index for this process using the current time as entropy:
/// [`quote_index_for`] of the clock's sub-second nanoseconds.
pub fn random_quote_index() -> (result: usize)
    ensures
        result < QUOTE_COUNT,
{
    let nanos = clock_subsec_nanos();
    quote_index_for(nanos)
}

/// Returns the startup banner: wordmark, emblem and a randomly picked quote.
pub fn banner_text() -> (result: String)
    ensures
        exists|i: int| 0 <= i < QUOTE_COUNT && result@ == banner_with(i),
{
    let index = random_quote_index();
    banner_for_quote(index)
}

} // verus!
