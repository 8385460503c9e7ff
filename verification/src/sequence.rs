//! The frame sequencer: an ordered, name-sorted collection of precomputed
//! text frames, replayed in a loop at a fixed interval. The state machine
//! runs Idle -> Loaded -> Playing -> Stopped; the caller performs the actual
//! emission and the timed suspension between frames.

use vstd::prelude::*;
use vstd::multiset::Multiset;

verus! {

/// One precomputed frame: the name it was loaded under (the sort key) and
/// its full text content.
pub struct Frame {
    pub name: Vec<u8>,
    pub content: String,
}

/// Errors of sequence loading.
#[derive(Clone, Copy, PartialEq, Eq, Structural, Debug)]
pub enum SequenceError {
    /// No frames were handed to the sequencer.
    EmptySequence,
}

/// Lexicographic byte order on frame names.
pub open spec fn lex_le(a: Seq<u8>, b: Seq<u8>) -> bool
    decreases a.len(),
{
    if a.len() == 0 {
        true
    } else if b.len() == 0 {
        false
    } else if a[0] < b[0] {
        true
    } else if a[0] > b[0] {
        false
    } else {
        lex_le(a.skip(1), b.skip(1))
    }
}

/// The order is total.
pub proof fn lemma_lex_total(a: Seq<u8>, b: Seq<u8>)
    ensures
        lex_le(a, b) || lex_le(b, a),
    decreases a.len(),
{
    if a.len() > 0 && b.len() > 0 && a[0] == b[0] {
        lemma_lex_total(a.skip(1), b.skip(1));
    }
}

/// The order is transitive.
pub proof fn lemma_lex_trans(a: Seq<u8>, b: Seq<u8>, c: Seq<u8>)
    requires
        lex_le(a, b),
        lex_le(b, c),
    ensures
        lex_le(a, c),
    decreases a.len(),
{
    if a.len() > 0 && b.len() > 0 && c.len() > 0 && a[0] == b[0] && b[0] == c[0] {
        lemma_lex_trans(a.skip(1), b.skip(1), c.skip(1));
    }
}

/// Byte-wise lexicographic comparison of two names.
pub fn lex_le_bytes(a: &Vec<u8>, b: &Vec<u8>) -> (r: bool)
    ensures
        r == lex_le(a@, b@),
{
    let na = a.len();
    let nb = b.len();
    let mut i: usize = 0;
    proof {
        assert(a@.skip(0) =~= a@);
        assert(b@.skip(0) =~= b@);
    }
    loop
        invariant
            na == a@.len(),
            nb == b@.len(),
            i <= na,
            i <= nb,
            lex_le(a@, b@) == lex_le(a@.skip(i as int), b@.skip(i as int)),
        ensures
            i <= na,
            i <= nb,
            lex_le(a@, b@) == lex_le(a@.skip(i as int), b@.skip(i as int)),
            i >= na || i >= nb || a@[i as int] != b@[i as int],
        decreases na - i,
    {
        if i >= na {
            break ;
        }
        if i >= nb {
            break ;
        }
        let ca = a[i];
        let cb = b[i];
        if ca != cb {
            break ;
        }
        proof {
            assert(a@.skip(i as int).skip(1) =~= a@.skip(i + 1));
            assert(b@.skip(i as int).skip(1) =~= b@.skip(i + 1));
        }
        i = i + 1;
    }
    if i >= a.len() {
        true
    } else if i >= b.len() {
        false
    } else {
        a[i] < b[i]
    }
}

/// Frames sorted by name.
pub open spec fn sorted_by_name(frames: Seq<Frame>) -> bool {
    forall|i: int, j: int|
        0 <= i < j < frames.len() ==> lex_le(
            (#[trigger] frames[i]).name@,
            (#[trigger] frames[j]).name@,
        )
}

/// Playback states: a sequence is loaded once, played in a loop, and
/// stopped only by its caller; no transition leads back to `Loaded`.
#[derive(Clone, Copy, PartialEq, Eq, Structural, Debug)]
pub enum PlayState {
    Idle,
    Loaded,
    Playing,
    Stopped,
}

/// The frame sequencer.
pub struct FrameSequencer {
    pub state: PlayState,
    pub frames: Vec<Frame>,
    pub pos: usize,
}

impl FrameSequencer {
    /// Outside `Idle` the sequencer holds at least one frame, sorted by
    /// name, and the playback position is in range.
    pub open spec fn wf(self) -> bool {
        &&& (self.state != PlayState::Idle ==> self.frames@.len() >= 1 && sorted_by_name(
            self.frames@,
        ))
        &&& self.pos < self.frames@.len() || self.pos == 0
    }

    /// A fresh sequencer, waiting for frames.
    pub fn new() -> (s: FrameSequencer)
        ensures
            s.state == PlayState::Idle,
            s.wf(),
    {
        FrameSequencer { state: PlayState::Idle, frames: Vec::new(), pos: 0 }
    }

    /// Load a set of frames, sorting them by name so playback order does
    /// not depend on the order they were found in. Fails with
    /// `EmptySequence`, and stays `Idle`, exactly when no frames were
    /// given.
    pub fn load(&mut self, input: Vec<Frame>) -> (r: Result<(), SequenceError>)
        requires
            old(self).state == PlayState::Idle,
            old(self).wf(),
        ensures
            final(self).wf(),
            match r {
                Ok(()) => {
                    &&& input@.len() >= 1
                    &&& final(self).state == PlayState::Loaded
                    &&& final(self).frames@.len() == input@.len()
                    &&& sorted_by_name(final(self).frames@)
                    &&& final(self).frames@.to_multiset() == input@.to_multiset()
                },
                Err(e) => {
                    &&& e == SequenceError::EmptySequence
                    &&& input@.len() == 0
                    &&& final(self).state == PlayState::Idle
                },
            },
    {
        if input.len() == 0 {
            return Err(SequenceError::EmptySequence);
        }
        let sorted = sort_frames(input);
        self.frames = sorted;
        self.state = PlayState::Loaded;
        self.pos = 0;
        Ok(())
    }

    /// Begin playback at the first frame.
    pub fn start(&mut self)
        requires
            old(self).state == PlayState::Loaded,
            old(self).wf(),
        ensures
            final(self).state == PlayState::Playing,
            final(self).pos == 0,
            final(self).frames == old(self).frames,
            final(self).wf(),
    {
        self.state = PlayState::Playing;
        self.pos = 0;
    }

    /// The content to emit for the current frame.
    pub fn current(&self) -> (c: &String)
        requires
            self.state == PlayState::Playing,
            self.wf(),
        ensures
            c == self.frames@[self.pos as int].content,
    {
        &self.frames[self.pos].content
    }

    /// Step to the next frame, wrapping at the end: the sequence loops
    /// until the caller stops it.
    pub fn advance(&mut self)
        requires
            old(self).state == PlayState::Playing,
            old(self).wf(),
        ensures
            final(self).state == PlayState::Playing,
            final(self).frames == old(self).frames,
            final(self).pos == (old(self).pos + 1) % (old(self).frames@.len() as int),
            final(self).wf(),
    {
        let n = self.frames.len();
        proof {
            assert(self.pos < n);
        }
        let next = self.pos + 1;
        if next == n {
            proof {
                vstd::arithmetic::div_mod::lemma_mod_self_0(n as int);
            }
            self.pos = 0;
        } else {
            proof {
                vstd::arithmetic::div_mod::lemma_small_mod(next as nat, n as nat);
            }
            self.pos = next;
        }
    }

    /// End playback.
    pub fn stop(&mut self)
        requires
            old(self).state == PlayState::Playing,
            old(self).wf(),
        ensures
            final(self).state == PlayState::Stopped,
            final(self).frames == old(self).frames,
            final(self).wf(),
    {
        self.state = PlayState::Stopped;
    }
}

/// Inter-frame delay in milliseconds for a frame rate: `1000 / fps`.
pub fn delay_ms(fps: u32) -> (d: u64)
    requires
        fps >= 1,
    ensures
        d == 1000 as int / fps as int,
{
    1000 / (fps as u64)
}

/// Position in `out` (sorted) at or before which `f` belongs: every name
/// before it is `lex_le` the new name, the new name is `lex_le` every name
/// from it on.
fn insert_pos(out: &Vec<Frame>, name: &Vec<u8>) -> (p: usize)
    requires
        sorted_by_name(out@),
    ensures
        p <= out@.len(),
        forall|i: int| 0 <= i < p ==> lex_le((#[trigger] out@[i]).name@, name@),
        forall|i: int| p <= i < out@.len() ==> lex_le(name@, (#[trigger] out@[i]).name@),
{
    let n = out.len();
    let mut p: usize = 0;
    loop
        invariant
            n == out@.len(),
            p <= n,
            sorted_by_name(out@),
            forall|i: int| 0 <= i < p ==> lex_le((#[trigger] out@[i]).name@, name@),
        ensures
            p <= n,
            forall|i: int| 0 <= i < p ==> lex_le((#[trigger] out@[i]).name@, name@),
            forall|i: int| p <= i < n ==> lex_le(name@, (#[trigger] out@[i]).name@),
        decreases n - p,
    {
        if p >= n {
            break ;
        }
        if !lex_le_bytes(&out[p].name, name) {
            proof {
                lemma_lex_total(out@[p as int].name@, name@);
                assert forall|i: int| p <= i < n implies lex_le(
                    name@,
                    (#[trigger] out@[i]).name@,
                ) by {
                    if i > p {
                        lemma_lex_trans(name@, out@[p as int].name@, out@[i].name@);
                    }
                }
            }
            break ;
        }
        p = p + 1;
    }
    p
}

/// Sort frames by name with insertion sort; the result holds exactly the
/// frames given.
fn sort_frames(input: Vec<Frame>) -> (out: Vec<Frame>)
    ensures
        out@.len() == input@.len(),
        sorted_by_name(out@),
        out@.to_multiset() == input@.to_multiset(),
{
    let mut rest = input;
    let mut out: Vec<Frame> = Vec::new();
    proof {
        assert(out@.to_multiset().add(rest@.to_multiset()) =~= input@.to_multiset()) by {
            out@.to_multiset_ensures();
            assert(out@.to_multiset() =~= Multiset::<Frame>::empty());
        }
    }
    while rest.len() > 0
        invariant
            sorted_by_name(out@),
            out@.to_multiset().add(rest@.to_multiset()) == input@.to_multiset(),
            out@.len() + rest@.len() == input@.len(),
        decreases rest@.len(),
    {
        let ghost rest0 = rest@;
        let f = match rest.pop() {
            Some(f) => f,
            None => {
                proof {
                    assert(false);
                }
                unreached()
            },
        };
        proof {
            rest@.to_multiset_ensures();
            assert(rest@.push(f).to_multiset() == rest@.to_multiset().insert(f));
            assert(rest@.push(f) =~= rest0);
        }
        let p = insert_pos(&out, &f.name);
        let ghost out0 = out@;
        out.insert(p, f);
        proof {
            vstd::seq_lib::to_multiset_insert(out0, p as int, f);
            assert(out@.to_multiset().add(rest@.to_multiset()) =~= input@.to_multiset());
            assert forall|i: int, j: int|
                0 <= i < j < out@.len() implies lex_le(
                (#[trigger] out@[i]).name@,
                (#[trigger] out@[j]).name@,
            ) by {
                if j < p {
                } else if i < p && j == p {
                } else if i < p && j > p {
                    assert(out@[j] == out0[j - 1]);
                } else if i == p {
                    assert(out@[j] == out0[j - 1]);
                } else {
                    assert(out@[i] == out0[i - 1]);
                    assert(out@[j] == out0[j - 1]);
                }
            }
        }
    }
    proof {
        rest@.to_multiset_ensures();
        assert(rest@.to_multiset() =~= Multiset::<Frame>::empty());
        assert(out@.to_multiset() =~= input@.to_multiset());
    }
    out
}

} // verus!
