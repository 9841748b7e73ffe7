use vstd::prelude::*;
use vstd::std_specs::iter::IteratorSpec;

verus! {

broadcast use vstd::string::axiom_spec_iter, vstd::string::next_postcondition;

/// Whether a character is alphabetic or numeric in Unicode's sense.
pub uninterp spec fn is_alphanumeric(c: char) -> bool;

/// Relies on `char::is_alphanumeric`: Unicode's alphabetic or numeric
/// property of one character, which depends on the character alone.
#[verifier::external_body]
fn alphanumeric(c: char) -> (r: bool)
    ensures
        r == is_alphanumeric(c),
{
    c.is_alphanumeric()
}

/// A character that a player name may hold.
pub open spec fn name_char_ok(c: char) -> bool {
    is_alphanumeric(c) || c == '_'
}

/// Why a player name was refused.
#[derive(Clone, Copy, Debug, PartialEq, Eq, Structural)]
pub enum NameError {
    Empty,
    InvalidCharacter,
}

/// The text that each refusal is shown as.
pub open spec fn name_error_text(e: NameError) -> Seq<char> {
    match e {
        NameError::Empty => "Player name is required"@,
        NameError::InvalidCharacter => "Invalid player name, should match [A-Z0-9_]+"@,
    }
}

impl NameError {
    /// The message shown to the user who gave the name.
    pub fn message(&self) -> (r: &'static str)
        ensures
            r@ == name_error_text(*self),
    {
        match self {
            NameError::Empty => "Player name is required",
            NameError::InvalidCharacter => "Invalid player name, should match [A-Z0-9_]+",
        }
    }
}

/// Checks a player name before it becomes part of a server command: it
/// must be non-empty, and each character alphanumeric or `_`.
pub fn check_player_name(player: &str) -> (r: Result<(), NameError>)
    ensures
        player@.len() == 0 ==> r == Err::<(), NameError>(NameError::Empty),
        player@.len() > 0 ==> (r is Ok <==> forall|i: int| 0 <= i < player@.len() ==> name_char_ok(#[trigger] player@[i])),
        player@.len() > 0 && r is Err ==> r == Err::<(), NameError>(NameError::InvalidCharacter),
{
    let mut chars = player.chars();
    let ghost all = player@;
    let ghost mut n: int = 0;
    let mut empty = true;
    let mut ok = true;
    assert(chars.remaining() == all);
    loop
        invariant
            chars.obeys_prophetic_iter_laws(),
            0 <= n <= all.len(),
            chars.remaining() == all.subrange(n, all.len() as int),
            empty <==> n == 0,
            ok <==> forall|i: int| 0 <= i < n ==> name_char_ok(#[trigger] all[i]),
        ensures
            n == all.len(),
            empty <==> n == 0,
            ok <==> forall|i: int| 0 <= i < n ==> name_char_ok(#[trigger] all[i]),
        decreases all.len() - n,
    {
        let ghost before = chars.remaining();
        match chars.next() {
            None => {
                assert(before.len() == 0);
                break;
            },
            Some(c) => {
                assert(c == all[n]);
                if !(alphanumeric(c) || c == '_') {
                    ok = false;
                }
                empty = false;
                assert(chars.remaining() =~= all.subrange(n + 1, all.len() as int));
                proof {
                    n = n + 1;
                }
            },
        }
    }
    if empty {
        Err(NameError::Empty)
    } else if ok {
        Ok(())
    } else {
        Err(NameError::InvalidCharacter)
    }
}

} // verus!
