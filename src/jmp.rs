//! Nonlocal-jump state: the per-instance table of jump buffers behind the
//! guest's setjmp/longjmp, and the control-flow escape that a jump raises.
use vstd::prelude::*;

verus! {

/// Number of 32-bit words in one jump buffer.
pub const JUMP_BUFFER_WORDS: usize = 27;

/// A fresh, zeroed jump buffer.
pub open spec fn empty_buffer() -> Seq<u32> {
    Seq::new(JUMP_BUFFER_WORDS as nat, |i: int| 0u32)
}

/// The table after one more jump point was marked.
pub open spec fn mark_spec(s: Seq<Seq<u32>>) -> Seq<Seq<u32>> {
    s.push(empty_buffer())
}

/// The table after `n` more jump points were marked.
pub open spec fn mark_n(s: Seq<Seq<u32>>, n: nat) -> Seq<Seq<u32>>
    decreases n,
{
    if n == 0 {
        s
    } else {
        mark_spec(mark_n(s, (n - 1) as nat))
    }
}

/// The tokens that `n` marks hand out, in order, starting from table `s`.
pub open spec fn tokens_of_marks(s: Seq<Seq<u32>>, n: nat) -> Seq<int> {
    Seq::new(n, |i: int| s.len() + i)
}

/// Whether `token` names a buffer of table `s`.
pub open spec fn resolves(s: Seq<Seq<u32>>, token: int) -> bool {
    0 <= token < s.len()
}

/// Raised when a jump names a token that no mark handed out.
#[derive(Clone, Copy, Debug, PartialEq, Eq, Structural)]
pub enum JumpError {
    UnknownToken(u32),
}

/// A control-flow escape: unwinds frames until the frame that issued the
/// matching mark, which then returns `value` a second time.
#[derive(Clone, Copy, Debug, PartialEq, Eq, Structural)]
pub struct Escape {
    pub token: u32,
    pub value: i32,
}

impl Escape {
    /// Offered to the frame that marked `token`: the value it resumes with
    /// when the escape is its own, or `None` when the escape passes through.
    pub fn catch(&self, token: u32) -> (r: Option<i32>)
        ensures
            self.token == token ==> r == Some(self.value),
            self.token != token ==> r.is_none(),
    {
        if self.token == token {
            Some(self.value)
        } else {
            None
        }
    }
}

/// The per-instance, append-only table of jump buffers.
pub struct JumpTable {
    jumps: Vec<Vec<u32>>,
}

impl View for JumpTable {
    type V = Seq<Seq<u32>>;

    closed spec fn view(&self) -> Seq<Seq<u32>> {
        Seq::new(self.jumps@.len(), |i: int| self.jumps@[i]@)
    }
}

impl JumpTable {
    /// Every buffer has the fixed size.
    pub open spec fn wf(&self) -> bool {
        forall|i: int| 0 <= i < self@.len() ==> #[trigger] self@[i].len() == JUMP_BUFFER_WORDS
    }

    /// An empty table.
    pub fn new() -> (r: JumpTable)
        ensures
            r.wf(),
            r@ == Seq::<Seq<u32>>::empty(),
    {
        JumpTable { jumps: Vec::new() }
    }

    /// Number of marked jump points.
    pub fn len(&self) -> (r: usize)
        ensures
            r == self@.len(),
    {
        self.jumps.len()
    }

    /// Marks a jump point: appends a fresh buffer and returns its index as the
    /// token that the guest keeps.
    pub fn mark(&mut self) -> (token: u32)
        requires
            old(self).wf(),
            old(self)@.len() < u32::MAX,
        ensures
            final(self).wf(),
            token == old(self)@.len(),
            final(self)@ == mark_spec(old(self)@),
    {
        let token: u32 = self.jumps.len() as u32;
        let buffer: Vec<u32> = vec![0u32; JUMP_BUFFER_WORDS];
        self.jumps.push(buffer);
        assert(self@ =~= mark_spec(old(self)@)) by {
            assert(buffer@ =~= empty_buffer());
        }
        token
    }

    /// The buffer that `token` names, or the nonlocal-jump error when no mark
    /// handed it out.
    pub fn buffer(&self, token: u32) -> (r: Result<&Vec<u32>, JumpError>)
        ensures
            resolves(self@, token as int) ==> r.is_ok() && r.unwrap()@ == self@[token as int],
            !resolves(self@, token as int) ==> r == Err::<&Vec<u32>, JumpError>(
                JumpError::UnknownToken(token),
            ),
    {
        if (token as usize) < self.jumps.len() {
            Ok(&self.jumps[token as usize])
        } else {
            Err(JumpError::UnknownToken(token))
        }
    }

    /// Performs a jump to the point that `token` marked, carrying `value`: the
    /// escape to propagate, or the nonlocal-jump error for an unknown token.
    pub fn jump(&self, token: u32, value: i32) -> (r: Result<Escape, JumpError>)
        ensures
            resolves(self@, token as int) ==> r == Ok::<Escape, JumpError>(
                Escape { token, value },
            ),
            !resolves(self@, token as int) ==> r == Err::<Escape, JumpError>(
                JumpError::UnknownToken(token),
            ),
    {
        if (token as usize) < self.jumps.len() {
            Ok(Escape { token, value })
        } else {
            Err(JumpError::UnknownToken(token))
        }
    }
}

pub proof fn lemma_mark_n_len(s: Seq<Seq<u32>>, n: nat)
    ensures
        mark_n(s, n).len() == s.len() + n,
    decreases n,
{
    if n > 0 {
        lemma_mark_n_len(s, (n - 1) as nat);
    }
}

/// `n` marks with no jump in between hand out `n` distinct tokens, each of
/// which names a buffer of the resulting table.
pub proof fn lemma_marks_distinct_and_resolvable(s: Seq<Seq<u32>>, n: nat)
    ensures
        tokens_of_marks(s, n).len() == n,
        forall|i: int, j: int|
            0 <= i < j < n ==> tokens_of_marks(s, n)[i] != tokens_of_marks(s, n)[j],
        forall|i: int| 0 <= i < n ==> resolves(mark_n(s, n), #[trigger] tokens_of_marks(s, n)[i]),
{
    lemma_mark_n_len(s, n);
}

/// A jump with a token that no mark handed out always fails.
pub proof fn lemma_unknown_token_fails(s: Seq<Seq<u32>>, token: int)
    requires
        token >= s.len(),
    ensures
        !resolves(s, token),
{
}

} // verus!
