//! The command-line options that a launch plan holds: those of the runtime
//! and those of the game.

use vstd::prelude::*;

verus! {

/// One opaque token for the runtime, such as `-Xmx2048m`.
#[derive(Debug)]
pub struct JvmOption(String);

/// A flag for the game, with the value that follows it if it has one.
#[derive(Debug)]
pub struct GameOption(String, Option<String>);

impl View for JvmOption {
    type V = Seq<char>;

    closed spec fn view(&self) -> Seq<char> {
        self.0@
    }
}

impl View for GameOption {
    type V = (Seq<char>, Option<Seq<char>>);

    closed spec fn view(&self) -> (Seq<char>, Option<Seq<char>>) {
        (
            self.0@,
            match self.1 {
                Some(value) => Some(value@),
                None => None,
            },
        )
    }
}

/// The tokens that one game option puts on the command line: its name, then
/// its value where it has one.
pub open spec fn option_tokens(option: (Seq<char>, Option<Seq<char>>)) -> Seq<Seq<char>> {
    match option.1 {
        Some(value) => seq![option.0, value],
        None => seq![option.0],
    }
}

/// The tokens of a run of game options, in order.
pub open spec fn game_tokens(options: Seq<(Seq<char>, Option<Seq<char>>)>) -> Seq<Seq<char>>
    decreases options.len(),
{
    if options.len() == 0 {
        Seq::empty()
    } else {
        game_tokens(options.drop_last()) + option_tokens(options.last())
    }
}

/// How many of the options carry a value.
pub open spec fn valued_count(options: Seq<(Seq<char>, Option<Seq<char>>)>) -> nat
    decreases options.len(),
{
    if options.len() == 0 {
        0
    } else {
        valued_count(options.drop_last()) + if options.last().1 is Some { 1nat } else { 0nat }
    }
}

/// The views of a run of JVM options.
pub open spec fn jvm_views(options: Seq<JvmOption>) -> Seq<Seq<char>> {
    Seq::new(options.len(), |i: int| options[i]@)
}

/// The views of a run of game options.
pub open spec fn game_views(options: Seq<GameOption>) -> Seq<(Seq<char>, Option<Seq<char>>)> {
    Seq::new(options.len(), |i: int| options[i]@)
}

impl JvmOption {
    pub fn new(arg: String) -> (option: JvmOption)
        ensures
            option@ == arg@,
    {
        JvmOption(arg)
    }

    /// The token itself.
    pub fn token(&self) -> (token: &String)
        ensures
            token@ == self@,
    {
        &self.0
    }
}

impl GameOption {
    pub fn new_pair(name: String, arg: String) -> (option: GameOption)
        ensures
            option@ == (name@, Some(arg@)),
    {
        GameOption(name, Some(arg))
    }

    pub fn new_single(name: String) -> (option: GameOption)
        ensures
            option@ == (name@, None::<Seq<char>>),
    {
        GameOption(name, None)
    }

    /// The flag's name.
    pub fn name(&self) -> (name: &String)
        ensures
            name@ == self@.0,
    {
        &self.0
    }

    /// The value that follows the name, if the option has one.
    pub fn value(&self) -> (value: Option<&String>)
        ensures
            match value {
                Some(text) => self@.1 == Some(text@),
                None => self@.1 is None,
            },
    {
        match &self.1 {
            Some(text) => Some(text),
            None => None,
        }
    }
}

} // verus!
