//! How many worker threads a runtime gets, and how that is read from text.
use vstd::prelude::*;
use vstd::string::*;
use crate::decimal::{decimal_text, decimal_up_to, push_decimal};
use crate::outside::parse_u8;
use crate::render::is_text;

verus! {

/// The text given was neither `auto` nor a count from 1 to 255.
#[derive(Clone, Copy, Debug, PartialEq, Eq, Structural)]
pub struct Error;

impl Error {
    /// What went wrong, for a person.
    pub fn message(&self) -> (r: String)
        ensures
            r@ == "Expected `auto` or a value in the [1..=255] range"@,
    {
        String::from_str("Expected `auto` or a value in the [1..=255] range")
    }
}

/// A number of worker threads above one.
#[derive(Clone, Copy, Debug, PartialEq, Eq, Structural)]
pub struct Count(u8);

impl Count {
    pub closed spec fn value(&self) -> u8 {
        self.0
    }

    /// The number of threads.
    pub fn get(&self) -> (r: u8)
        ensures
            r == self.value(),
    {
        self.0
    }
}

/// How a runtime schedules its tasks.
#[derive(Clone, Copy, Debug, PartialEq, Eq, Structural)]
pub enum Threads {
    /// On the calling thread alone.
    Single,
    /// On as many workers as the machine suggests.
    Auto,
    /// On the given number of workers.
    Multi(Count),
}

/// How a runtime with these threads is named in the log.
pub open spec fn threads_text(t: Threads) -> Seq<char> {
    match t {
        Threads::Single => "Single"@,
        Threads::Auto => "Auto"@,
        Threads::Multi(c) => "Multi("@ + decimal_text(c.value() as nat) + ")"@,
    }
}

impl Threads {
    /// Let the runtime choose.
    pub fn auto() -> (r: Threads)
        ensures
            r == Threads::Auto,
    {
        Threads::Auto
    }

    /// Exactly `count` threads: an error for none, a single-threaded runtime
    /// for one, workers for more.
    pub fn count(count: u8) -> (r: Result<Threads, Error>)
        ensures
            count == 0 ==> r == Err::<Threads, Error>(Error),
            count == 1 ==> r == Ok::<Threads, Error>(Threads::Single),
            count >= 2 ==> (r matches Ok(Threads::Multi(c)) && c.value() == count),
    {
        if count == 0 {
            Err(Error)
        } else if count == 1 {
            Ok(Threads::Single)
        } else {
            Ok(Threads::Multi(Count(count)))
        }
    }

    /// The name of this choice, as the log shows it.
    pub fn text(&self) -> (r: String)
        ensures
            r@ == threads_text(*self),
    {
        match self {
            Threads::Single => String::from_str("Single"),
            Threads::Auto => String::from_str("Auto"),
            Threads::Multi(c) => {
                let mut s = String::from_str("Multi(");
                push_decimal(&mut s, c.0 as u16);
                s.append(")");
                s
            },
        }
    }
}

/// Reads a thread setting: `auto`, or a count from 1 to 255 in decimal
/// (an optional `+`, then digits only); anything else is an error.
pub fn parse(input: &str) -> (r: Result<Threads, Error>)
    ensures
        input@ == "auto"@ ==> r == Ok::<Threads, Error>(Threads::Auto),
        input@ != "auto"@ ==> match decimal_up_to(input@, 255) {
            None => r == Err::<Threads, Error>(Error),
            Some(n) => if n == 0 {
                r == Err::<Threads, Error>(Error)
            } else if n == 1 {
                r == Ok::<Threads, Error>(Threads::Single)
            } else {
                r matches Ok(Threads::Multi(c)) && c.value() == n
            },
        },
{
    if is_text(&String::from_str(input), "auto") {
        Ok(Threads::Auto)
    } else {
        match parse_u8(input) {
            Some(n) => Threads::count(n),
            None => Err(Error),
        }
    }
}

} // verus!
