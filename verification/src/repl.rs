//! Decisions of the interactive loop, free of any input or output.
//!
//! The surrounding line editor reads a line and hands its bytes here.
//! `tokenize` splits them on whitespace, and `classify` decides which
//! command shape the tokens form: a lone token is a stake-bound query, a
//! `p`/`k` name followed by a value reassigns a parameter, and anything
//! else is silently skipped — a malformed line never raises an error, the
//! loop just moves on. Once the caller has turned the value tokens into
//! numbers, `ReplState::step` applies the command to the stored parameters
//! and says what to print.

use vstd::prelude::*;

use crate::frac::Frac;
use crate::search::bracket_result;
use crate::slope::GRID;
use crate::stake::Stake;
use crate::stake::find_optimal_stake;

verus! {

/// Which stored parameter a two-token command reassigns.
#[derive(Clone, Copy, Debug, PartialEq, Eq, Structural)]
pub enum ParamKind {
    /// The success probability `p`.
    Prob,
    /// The win/loss payout ratio `k`.
    Ratio,
}

/// The shape of one input line, with its value tokens still unparsed.
#[derive(Debug)]
pub enum Command {
    /// A lone token: query the optimal stake for this bound.
    Bound(Vec<u8>),
    /// `p VALUE` or `k VALUE`: reassign the named parameter.
    Assign(ParamKind, Vec<u8>),
    /// Anything else: ignore the line and keep the loop going.
    Skip,
}

/// One fully parsed input, ready to apply to the stored parameters.
#[derive(Clone, Copy, Debug)]
pub enum Event {
    /// Store a new success probability.
    SetProb(Frac),
    /// Store a new payout ratio.
    SetRatio(Frac),
    /// Query the optimal stake for this bound.
    Query(Frac),
    /// A line whose shape or value token could not be read: do nothing.
    Malformed,
}

/// What the caller should print after a step.
#[derive(Clone, Copy, Debug)]
pub enum Action {
    /// Echo the stored `p` and `k`.
    ShowParams,
    /// Print the parameters and this optimal stake.
    ShowStake(Stake),
    /// Print nothing.
    Silent,
}

/// The whitespace that separates tokens: space, tab, line feed, carriage
/// return.
pub open spec fn is_space(c: u8) -> bool {
    c == 32 || c == 9 || c == 10 || c == 13
}

/// Length of the leading run of non-space bytes.
pub open spec fn head_len(s: Seq<u8>) -> nat
    decreases s.len(),
{
    if s.len() == 0 || is_space(s[0]) {
        0
    } else {
        (1 + head_len(s.drop_first())) as nat
    }
}

/// The head run never reaches past the end of the line.
pub proof fn lemma_head_len_le(s: Seq<u8>)
    ensures
        head_len(s) <= s.len(),
    decreases s.len(),
{
    if s.len() != 0 && !is_space(s[0]) {
        lemma_head_len_le(s.drop_first());
    }
}

/// The whitespace-separated tokens of a line, in order, spaces dropped.
pub open spec fn tokens(s: Seq<u8>) -> Seq<Seq<u8>>
    decreases s.len(),
    via tokens_decreases
{
    if s.len() == 0 {
        seq![]
    } else if is_space(s[0]) {
        tokens(s.drop_first())
    } else {
        seq![s.take(head_len(s) as int)] + tokens(s.skip(head_len(s) as int))
    }
}

#[via_fn]
proof fn tokens_decreases(s: Seq<u8>) {
    if s.len() != 0 && !is_space(s[0]) {
        lemma_head_len_le(s);
        assert(head_len(s) >= 1);
    }
}

/// A scan that passes `j` non-space bytes and then stops — at a space or at
/// the end — has found the head run exactly.
proof fn lemma_head_len_from_scan(s: Seq<u8>, j: int)
    requires
        0 <= j <= s.len(),
        forall|t: int| 0 <= t < j ==> !is_space(s[t]),
        j == s.len() || is_space(s[j]),
    ensures
        head_len(s) == j,
    decreases j,
{
    if j > 0 {
        assert(!is_space(s[0]));
        assert forall|t: int| 0 <= t < j - 1 implies !is_space(s.drop_first()[t]) by {
            assert(s.drop_first()[t] == s[t + 1]);
        }
        lemma_head_len_from_scan(s.drop_first(), j - 1);
    }
}

/// Runtime form of `is_space`.
fn is_space_byte(c: u8) -> (r: bool)
    ensures
        r == is_space(c),
{
    c == 32 || c == 9 || c == 10 || c == 13
}

/// Split a line into its whitespace-separated tokens.
pub fn tokenize(line: &[u8]) -> (r: Vec<Vec<u8>>)
    ensures
        r@.map_values(|t: Vec<u8>| t@) == tokens(line@),
{
    let mut r: Vec<Vec<u8>> = Vec::new();
    let mut pos: usize = 0;
    proof {
        assert(line@.skip(0) =~= line@);
        assert(r@.map_values(|t: Vec<u8>| t@) =~= Seq::<Seq<u8>>::empty());
        assert(Seq::<Seq<u8>>::empty() + tokens(line@) =~= tokens(line@));
    }
    while pos < line.len()
        invariant
            pos <= line@.len(),
            tokens(line@) == r@.map_values(|t: Vec<u8>| t@) + tokens(line@.skip(pos as int)),
        decreases line@.len() - pos,
    {
        if is_space_byte(line[pos]) {
            proof {
                assert(line@.skip(pos as int).drop_first() =~= line@.skip(pos as int + 1));
            }
            pos = pos + 1;
        } else {
            let ghost start = pos as int;
            let ghost prev = r@.map_values(|t: Vec<u8>| t@);
            let mut tok: Vec<u8> = Vec::new();
            while pos < line.len() && !is_space_byte(line[pos])
                invariant
                    0 <= start <= pos <= line@.len(),
                    start < line@.len(),
                    !is_space(line@[start]),
                    tok@ == line@.subrange(start, pos as int),
                    forall|t: int| start <= t < pos ==> !is_space(line@[t]),
                decreases line@.len() - pos,
            {
                tok.push(line[pos]);
                pos = pos + 1;
                assert(tok@ =~= line@.subrange(start, pos as int));
            }
            proof {
                let rest = line@.skip(start);
                assert forall|t: int| 0 <= t < pos - start implies !is_space(rest[t]) by {
                    assert(rest[t] == line@[start + t]);
                }
                if pos < line@.len() {
                    assert(is_space(rest[pos - start]));
                }
                lemma_head_len_from_scan(rest, pos - start);
                assert(rest.take(pos - start) =~= tok@);
                assert(rest.skip(pos - start) =~= line@.skip(pos as int));
                assert(tokens(rest) == seq![tok@] + tokens(line@.skip(pos as int)));
            }
            r.push(tok);
            proof {
                assert(r@.map_values(|t: Vec<u8>| t@) =~= prev + seq![line@.subrange(
                    start,
                    pos as int,
                )]);
                assert(prev + (seq![line@.subrange(start, pos as int)] + tokens(
                    line@.skip(pos as int),
                )) =~= (prev + seq![line@.subrange(start, pos as int)]) + tokens(
                    line@.skip(pos as int),
                ));
            }
        }
    }
    proof {
        assert(line@.skip(pos as int) =~= Seq::<u8>::empty());
        assert(r@.map_values(|t: Vec<u8>| t@) + tokens(line@.skip(pos as int)) =~= r@.map_values(
            |t: Vec<u8>| t@,
        ));
    }
    r
}

/// The values an event may carry must be well-formed fractions.
pub open spec fn event_wf(ev: Event) -> bool {
    match ev {
        Event::SetProb(v) => v.wf(),
        Event::SetRatio(v) => v.wf(),
        Event::Query(b) => b.wf(),
        Event::Malformed => true,
    }
}

/// Copy a token so the command can own it.
fn copy_token(v: &Vec<u8>) -> (r: Vec<u8>)
    ensures
        r@ == v@,
{
    let mut r: Vec<u8> = Vec::new();
    let mut i: usize = 0;
    while i < v.len()
        invariant
            i <= v.len(),
            r@ == v@.subrange(0, i as int),
        decreases v.len() - i,
    {
        r.push(v[i]);
        assert(r@ =~= v@.subrange(0, i + 1));
        i = i + 1;
    }
    assert(r@ =~= v@);
    r
}

/// Decide the shape of a line from its whitespace-separated tokens.
///
/// One token queries a bound; two tokens whose first is exactly `p` or `k`
/// reassign that parameter; every other shape — an empty line, an unknown
/// name, three or more tokens — is skipped without complaint.
pub fn classify(tokens: &Vec<Vec<u8>>) -> (c: Command)
    ensures
        tokens@.len() == 1 ==> (c matches Command::Bound(v) && v@ == tokens@[0]@),
        tokens@.len() == 2 && tokens@[0]@ == seq![112u8] ==> (c matches Command::Assign(
            which,
            v,
        ) && which == ParamKind::Prob && v@ == tokens@[1]@),
        tokens@.len() == 2 && tokens@[0]@ == seq![107u8] ==> (c matches Command::Assign(
            which,
            v,
        ) && which == ParamKind::Ratio && v@ == tokens@[1]@),
        tokens@.len() == 2 && tokens@[0]@ != seq![112u8] && tokens@[0]@ != seq![107u8] ==> (
        c matches Command::Skip),
        tokens@.len() == 0 || tokens@.len() > 2 ==> (c matches Command::Skip),
{
    if tokens.len() == 1 {
        Command::Bound(copy_token(&tokens[0]))
    } else if tokens.len() == 2 {
        let name = &tokens[0];
        if name.len() == 1 && name[0] == 112u8 {
            proof {
                assert(tokens@[0]@ =~= seq![112u8]);
            }
            Command::Assign(ParamKind::Prob, copy_token(&tokens[1]))
        } else if name.len() == 1 && name[0] == 107u8 {
            proof {
                assert(tokens@[0]@ =~= seq![107u8]);
            }
            Command::Assign(ParamKind::Ratio, copy_token(&tokens[1]))
        } else {
            proof {
                assert(tokens@[0]@ != seq![112u8] && tokens@[0]@ != seq![107u8]);
            }
            Command::Skip
        }
    } else {
        Command::Skip
    }
}

/// The parameters the loop holds between lines.
///
/// They are read on every query and replaced by `p VALUE` / `k VALUE`
/// commands; the search itself never writes them.
#[derive(Clone, Copy, Debug, PartialEq, Eq, Structural)]
pub struct ReplState {
    pub p: Frac,
    pub k: Frac,
}

impl ReplState {
    /// Both stored parameters are well-formed fractions.
    pub open spec fn wf(self) -> bool {
        self.p.wf() && self.k.wf()
    }

    /// Starting state, from defaults or from the command line.
    pub fn init(p: Frac, k: Frac) -> (s: ReplState)
        requires
            p.wf(),
            k.wf(),
        ensures
            s.p == p,
            s.k == k,
            s.wf(),
    {
        ReplState { p, k }
    }

    /// Apply one parsed input: reassignments replace exactly the named
    /// parameter and echo both; a query leaves the state alone and yields
    /// the optimal stake for the stored parameters; a malformed line
    /// changes nothing and stays silent.
    pub fn step(&mut self, ev: Event) -> (a: Action)
        requires
            old(self).wf(),
            event_wf(ev),
        ensures
            final(self).wf(),
            ev matches Event::SetProb(v) ==> final(self).p == v && final(self).k == old(self).k
                && (a matches Action::ShowParams),
            ev matches Event::SetRatio(v) ==> final(self).k == v && final(self).p == old(self).p
                && (a matches Action::ShowParams),
            ev matches Event::Query(b) ==> *final(self) == *old(self) && (a matches
                Action::ShowStake(s) && s.den == b.den * (GRID as int) && exists|i: u64|
                #[trigger] bracket_result(old(self).p, old(self).k, 0, GRID as int, i as int)
                    && s.num == b.num * (i as int)),
            ev matches Event::Malformed ==> *final(self) == *old(self) && (a matches
                Action::Silent),
    {
        match ev {
            Event::SetProb(v) => {
                self.p = v;
                Action::ShowParams
            },
            Event::SetRatio(v) => {
                self.k = v;
                Action::ShowParams
            },
            Event::Query(b) => Action::ShowStake(find_optimal_stake(self.p, self.k, b)),
            Event::Malformed => Action::Silent,
        }
    }
}

} // verus!
