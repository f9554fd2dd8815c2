//! An explicit environment: a sequence of name/value bindings that stands in
//! for the process environment during resolution.
//!
//! Resolution never reaches into ambient global state; callers hand it an
//! [`Env`] built from whatever provider they choose (the real process
//! environment, or a map built by hand in tests).

use vstd::prelude::*;

verus! {

/// Why a lookup in an [`Env`] produced no text.
#[derive(Debug, Clone, Copy, PartialEq, Eq, Structural)]
pub enum LookupError {
    /// No binding with the requested name exists.
    NotPresent,
    /// A binding exists, but its value is not decodable as text.
    NotText,
}

/// One binding of an [`Env`]: a variable name and, when the value is
/// decodable as text, that text. A `value` of `None` records a variable that
/// is set but whose bytes are not valid text.
#[derive(Debug, Clone, PartialEq, Eq)]
pub struct EnvEntry {
    pub name: String,
    pub value: Option<String>,
}

/// A snapshot of an environment: bindings in order, earlier bindings
/// shadowing later ones of the same name.
#[derive(Debug, Clone, PartialEq, Eq)]
pub struct Env {
    pub entries: Vec<EnvEntry>,
}

impl View for Env {
    type V = Seq<EnvEntry>;

    open spec fn view(&self) -> Seq<EnvEntry> {
        self.entries@
    }
}

/// What looking up `name` among `entries` yields: the text of the first
/// binding with that name, or the reason there is none.
pub open spec fn env_lookup(entries: Seq<EnvEntry>, name: Seq<char>) -> Result<
    Seq<char>,
    LookupError,
>
    decreases entries.len(),
{
    if entries.len() == 0 {
        Err(LookupError::NotPresent)
    } else if entries[0].name@ == name {
        match entries[0].value {
            Some(v) => Ok(v@),
            None => Err(LookupError::NotText),
        }
    } else {
        env_lookup(entries.drop_first(), name)
    }
}

impl Env {
    /// An environment with no bindings.
    pub fn empty() -> (r: Env)
        ensures
            r@ == Seq::<EnvEntry>::empty(),
    {
        Env { entries: Vec::new() }
    }

    /// Appends a binding of `name` to the text `value`. An earlier binding of
    /// the same name keeps shadowing the new one.
    pub fn set(&mut self, name: String, value: String)
        ensures
            final(self)@ == old(self)@.push(EnvEntry { name, value: Some(value) }),
    {
        self.entries.push(EnvEntry { name, value: Some(value) });
    }

    /// Appends a binding of `name` whose value is set but not decodable as
    /// text.
    pub fn set_non_text(&mut self, name: String)
        ensures
            final(self)@ == old(self)@.push(EnvEntry { name, value: None }),
    {
        self.entries.push(EnvEntry { name, value: None });
    }

    /// Looks `name` up, returning the text of the first binding with that
    /// name, or the reason there is none.
    pub fn get(&self, name: &String) -> (r: Result<String, LookupError>)
        ensures
            match r {
                Ok(t) => env_lookup(self@, name@) == Ok::<Seq<char>, LookupError>(t@),
                Err(e) => env_lookup(self@, name@) == Err::<Seq<char>, LookupError>(e),
            },
    {
        let n = self.entries.len();
        proof {
            assert(self@.skip(0) =~= self@);
        }
        for i in 0..n
            invariant
                n == self@.len(),
                env_lookup(self@, name@) == env_lookup(self@.skip(i as int), name@),
        {
            proof {
                assert(self@.skip(i as int).drop_first() =~= self@.skip(i + 1));
                assert(self@.skip(i as int)[0] == self@[i as int]);
            }
            let e = &self.entries[i];
            if e.name == *name {
                match &e.value {
                    Some(v) => {
                        return Ok(v.clone());
                    },
                    None => {
                        return Err(LookupError::NotText);
                    },
                }
            }
        }
        proof {
            assert(self@.skip(n as int) =~= Seq::<EnvEntry>::empty());
        }
        Err(LookupError::NotPresent)
    }
}

} // verus!
