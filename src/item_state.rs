use vstd::prelude::*;
use crate::text::same_text;

verus! {

/// The lifecycle of an issue or a pull request.
#[derive(Debug, Clone, Copy, PartialEq, Eq, Structural)]
pub enum ItemState {
    Open,
    Closed,
    Merged,
}

/// The wire token of each state.
pub open spec fn token_of(s: ItemState) -> Seq<char> {
    match s {
        ItemState::Open => "OPEN"@,
        ItemState::Closed => "CLOSED"@,
        ItemState::Merged => "MERGED"@,
    }
}

/// What a token decodes to: only the three exact uppercase tokens are states.
pub open spec fn state_of(t: Seq<char>) -> Option<ItemState> {
    if t == "OPEN"@ {
        Some(ItemState::Open)
    } else if t == "CLOSED"@ {
        Some(ItemState::Closed)
    } else if t == "MERGED"@ {
        Some(ItemState::Merged)
    } else {
        None
    }
}

impl ItemState {
    /// Decodes a wire token; any token but the three exact ones is refused.
    pub fn from_str(s: &str) -> (r: Option<ItemState>)
        ensures
            r == state_of(s@),
    {
        if same_text(s, "OPEN") {
            Some(ItemState::Open)
        } else if same_text(s, "CLOSED") {
            Some(ItemState::Closed)
        } else if same_text(s, "MERGED") {
            Some(ItemState::Merged)
        } else {
            None
        }
    }

    /// The wire token of this state.
    pub fn token(&self) -> (r: &'static str)
        ensures
            r@ == token_of(*self),
    {
        match self {
            ItemState::Open => "OPEN",
            ItemState::Closed => "CLOSED",
            ItemState::Merged => "MERGED",
        }
    }
}

/// Decoding is exact: each state's token decodes to that state, and nothing
/// else decodes at all.
pub proof fn lemma_state_decode_exact(t: Seq<char>)
    ensures
        state_of(t) is Some <==> (t == "OPEN"@ || t == "CLOSED"@ || t == "MERGED"@),
        forall|s: ItemState| #[trigger] state_of(token_of(s)) == Some(s),
        state_of(t) matches Some(s) ==> token_of(s) == t,
{
    assert forall|s: ItemState| #[trigger] state_of(token_of(s)) == Some(s) by {
        reveal_strlit("OPEN");
        reveal_strlit("CLOSED");
        reveal_strlit("MERGED");
        assert("OPEN"@.len() != "CLOSED"@.len());
        assert("OPEN"@.len() != "MERGED"@.len());
        assert("CLOSED"@[0] != "MERGED"@[0]);
    }
}

} // verus!
