//! The candidate sequence generator: a forward-only cursor over an ordered
//! list of in-memory password sources, each with an optional cap.
//!
//! Opening and reading the underlying files is I/O and lives outside this
//! library; callers hand each source over as its list of lines.

use vstd::prelude::*;

verus! {

/// One password source, already read into memory: its candidate lines in
/// file order, and an optional cap on how many of them to draw.
/// `amount == None` means the whole source is consumed.
///
/// Lines are handed on verbatim: a blank line is a valid, empty-string
/// candidate. A caller that wants blank lines dropped makes that choice
/// explicitly, by filtering before handing the source over.
pub struct PwSource {
    /// The source's lines, one candidate per line, in order.
    pub lines: Vec<String>,
    /// How many lines to draw from this source at most; `None` for all.
    pub amount: Option<usize>,
}

/// The lines of a source as mathematical sequences of characters.
pub open spec fn lines_view(lines: Seq<String>) -> Seq<Seq<char>> {
    lines.map_values(|s: String| s@)
}

/// What one source contributes to the candidate sequence: its lines in
/// order, cut off at its cap. A source with fewer lines than its cap
/// contributes all of its lines; a source capped at zero contributes
/// nothing.
pub open spec fn source_contribution(src: PwSource) -> Seq<Seq<char>> {
    let all = lines_view(src.lines@);
    match src.amount {
        Some(cap) => if cap as int <= all.len() {
            all.take(cap as int)
        } else {
            all
        },
        None => all,
    }
}

/// The full candidate sequence of an ordered list of sources: each source's
/// contribution, in priority order.
pub open spec fn sources_model(srcs: Seq<PwSource>) -> Seq<Seq<char>>
    decreases srcs.len(),
{
    if srcs.len() == 0 {
        Seq::empty()
    } else {
        source_contribution(srcs[0]) + sources_model(srcs.drop_first())
    }
}

/// A source capped at zero contributes no candidate and does not block
/// progression: the candidate sequence with it is the candidate sequence
/// without it.
pub proof fn lemma_zero_cap_skip(srcs: Seq<PwSource>, i: int)
    requires
        0 <= i < srcs.len(),
        srcs[i].amount == Some(0usize),
    ensures
        sources_model(srcs) == sources_model(srcs.remove(i)),
    decreases i,
{
    assert(source_contribution(srcs[i]) =~= Seq::empty());
    if i == 0 {
        assert(srcs.remove(0) =~= srcs.drop_first());
        assert(sources_model(srcs) =~= sources_model(srcs.drop_first()));
    } else {
        lemma_zero_cap_skip(srcs.drop_first(), i - 1);
        assert(srcs.remove(i).drop_first() =~= srcs.drop_first().remove(i - 1));
        assert(srcs.remove(i)[0] == srcs[0]);
        assert(sources_model(srcs) =~= sources_model(srcs.remove(i)));
    }
}

/// Exhaustion before the cap: a source with no more lines than its cap
/// contributes exactly its lines, with no padding and no error.
pub proof fn lemma_exhaustion_before_cap(src: PwSource)
    requires
        src.amount matches Some(cap) && src.lines@.len() <= cap,
    ensures
        source_contribution(src) == lines_view(src.lines@),
{
    let all = lines_view(src.lines@);
    match src.amount {
        Some(cap) => {
            if cap as int <= all.len() {
                assert(all.take(cap as int) =~= all);
            }
        },
        None => {},
    }
}

/// A forward-only cursor over an ordered list of sources. Candidates are
/// drawn from the first source until its cap is reached or it runs out of
/// lines, whichever comes first; then the cursor advances to the next
/// source and its counter starts over. Once every source is exhausted the
/// sequence has ended for good: it never rewinds and never restarts.
pub struct PasswordReader {
    /// The sources, in priority order.
    sources: Vec<PwSource>,
    /// Index of the source the cursor currently draws from.
    lines_index: usize,
    /// How many candidates were already drawn from the current source.
    limit_acc: usize,
}

impl PasswordReader {
    /// The cursor stands inside its sources: at a real source (or one past
    /// the last), and within the current source's contribution.
    pub closed spec fn wf(self) -> bool {
        &&& self.lines_index <= self.sources@.len()
        &&& (self.lines_index < self.sources@.len() ==> self.limit_acc as int
            <= source_contribution(self.sources@[self.lines_index as int]).len())
    }

    /// The candidates this reader has yet to produce, in order.
    pub closed spec fn remaining(self) -> Seq<Seq<char>> {
        if self.lines_index < self.sources@.len() {
            source_contribution(self.sources@[self.lines_index as int]).skip(
                self.limit_acc as int,
            ) + sources_model(self.sources@.skip(self.lines_index as int + 1))
        } else {
            Seq::empty()
        }
    }

    /// Build a reader over the given sources. The reader will produce
    /// exactly the candidate sequence of the sources, first source first.
    pub fn build(sources: Vec<PwSource>) -> (r: PasswordReader)
        ensures
            r.wf(),
            r.remaining() == sources_model(sources@),
    {
        let r = PasswordReader { sources, lines_index: 0, limit_acc: 0 };
        proof {
            if r.sources@.len() > 0 {
                assert(r.sources@.skip(1) =~= r.sources@.drop_first());
                assert(source_contribution(r.sources@[0]).skip(0) =~= source_contribution(
                    r.sources@[0],
                ));
                assert(r.remaining() =~= sources_model(r.sources@));
            }
        }
        r
    }

    /// Produce the next candidate, or `None` once every source is exhausted
    /// or capped. Sources that have nothing left to give are skipped by an
    /// iterative advance (one bounded step per source), never by recursion,
    /// so a long run of empty or zero-capped sources cannot grow the stack.
    #[verifier::loop_isolation(false)]
    pub fn next(&mut self) -> (r: Option<String>)
        requires
            old(self).wf(),
        ensures
            final(self).wf(),
            old(self).remaining().len() == 0 ==> r is None && final(self).remaining()
                == old(self).remaining(),
            old(self).remaining().len() > 0 ==> (r matches Some(pw) && pw@ == old(
                self,
            ).remaining()[0] && final(self).remaining() == old(self).remaining().drop_first()),
    {
        loop
            invariant
                self.wf(),
                self.remaining() == old(self).remaining(),
            decreases self.sources@.len() - self.lines_index,
        {
            if self.lines_index >= self.sources.len() {
                return None;
            }
            let ghost srcs = self.sources@;
            let ghost i = self.lines_index as int;
            let ghost acc = self.limit_acc as int;
            let ghost cur_part = source_contribution(srcs[i]);
            let cap_reached = match self.sources[self.lines_index].amount {
                Some(cap) => self.limit_acc >= cap,
                None => false,
            };
            if cap_reached || self.limit_acc >= self.sources[self.lines_index].lines.len() {
                // The current source has nothing left to give: its whole
                // contribution has been drawn.
                proof {
                    assert(acc == cur_part.len());
                    assert(cur_part.skip(acc) =~= Seq::<Seq<char>>::empty());
                    if i + 1 < srcs.len() {
                        assert(srcs.skip(i + 1)[0] == srcs[i + 1]);
                        assert(srcs.skip(i + 1).drop_first() =~= srcs.skip(i + 2));
                        assert(source_contribution(srcs[i + 1]).skip(0) =~= source_contribution(
                            srcs[i + 1],
                        ));
                    }
                }
                self.lines_index = self.lines_index + 1;
                self.limit_acc = 0;
                proof {
                    assert(self.remaining() =~= old(self).remaining());
                }
            } else {
                let pw = self.sources[self.lines_index].lines[self.limit_acc].clone();
                self.limit_acc = self.limit_acc + 1;
                proof {
                    assert(acc < cur_part.len());
                    assert(cur_part[acc] == srcs[i].lines@[acc]@);
                    assert(old(self).remaining()[0] == cur_part[acc]);
                    assert(self.remaining() =~= old(self).remaining().drop_first());
                }
                return Some(pw);
            }
        }
    }
}

} // verus!
