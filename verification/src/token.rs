//! The cell that holds the session token.
//!
//! The cell is a plain value: `write` takes it by `&mut`, so no read and no
//! other write can run while one write is under way. A program that hands
//! the cell to several threads keeps it behind a lock and holds the lock for
//! the length of one call.

use vstd::prelude::*;

verus! {

/// Holds the current session token. The empty string stands for "not
/// logged in"; any other string counts as a session, whatever it holds.
#[derive(Debug)]
pub struct TokenCell {
    value: String,
}

impl View for TokenCell {
    type V = Seq<char>;

    closed spec fn view(&self) -> Seq<char> {
        self.value@
    }
}

/// What a cell holds after `token` was written to it, whatever it held
/// before: the whole of `token`, and nothing of the earlier value.
pub open spec fn written(before: Seq<char>, token: Seq<char>) -> Seq<char> {
    token
}

impl TokenCell {
    /// A cell that holds no token.
    pub fn new() -> (cell: TokenCell)
        ensures
            cell@ == Seq::<char>::empty(),
    {
        TokenCell { value: String::new() }
    }

    /// A copy of the token that the cell holds. The cell stays as it is.
    pub fn read(&self) -> (token: String)
        ensures
            token@ == self@,
    {
        self.value.clone()
    }

    /// Replaces the token that the cell holds by `token`.
    pub fn write(&mut self, token: String)
        ensures
            final(self)@ == written(old(self)@, token@),
    {
        self.value = token;
    }

    /// Whether the cell holds a session, that is, a token that is not empty.
    pub fn is_authenticated(&self) -> (authenticated: bool)
        ensures
            authenticated == (self@.len() > 0),
    {
        !self.value.as_str().is_empty()
    }
}

/// Two reads of a cell with no write between them return the same token.
///
/// `first` and `second` stand for what the two calls of `read` returned.
pub proof fn lemma_read_is_repeatable(cell: TokenCell, first: Seq<char>, second: Seq<char>)
    requires
        first == cell@,
        second == cell@,
    ensures
        first == second,
{
}

/// Two writes, in either order, leave the cell holding one of the two
/// tokens whole: the one that was written last.
pub proof fn lemma_writes_do_not_mix(before: Seq<char>, a: Seq<char>, b: Seq<char>)
    ensures
        written(written(before, a), b) == b,
        written(written(before, b), a) == a,
        written(written(before, a), b) == a || written(written(before, a), b) == b,
        written(written(before, b), a) == a || written(written(before, b), a) == b,
{
}

} // verus!
