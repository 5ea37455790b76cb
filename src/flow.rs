use vstd::prelude::*;
use crate::envelope::{callback_name, callback_token, envelope_value};
use crate::error::GtError;
use crate::fields::{text_view, then};
use crate::json::Json;
use crate::protocol::{
    click_puzzle_of, click_refresh_of, click_submission_of, decode_click_puzzle, decode_kind,
    decode_params, decode_refresh, decode_slide_puzzle, decode_submission, kind_of, params_of,
    slide_puzzle_of, slide_submission_of, PuzzleKind, PuzzleMaterial, SlidePuzzle,
};
use crate::request::{
    base_query, params_url, puzzle_query, puzzle_request, puzzle_url, refresh_request, refresh_url,
    signed_query, submission_request, submission_url, type_request, type_url, Request,
};
use crate::retry::{decide, outcome_view, RetryDriver, RetryStep};
use crate::timing::{remaining_wait_millis, wait_for};

verus! {

/// Where a solve stands: which answer it waits for, or that it is over.
#[derive(Clone, Copy, Debug, PartialEq, Eq, Structural)]
pub enum Stage {
    Params,
    Type,
    Puzzle,
    Solving,
    Verdict,
    Refreshing,
    Finished,
}

/// The puzzle that the runner must solve and sign.
#[derive(Debug)]
pub enum Assignment {
    /// A click puzzle, by the address of its image.
    Click(String),
    /// A slide puzzle, with its assets.
    Slide(SlidePuzzle),
}

/// What the runner does next.
#[derive(Debug)]
pub enum Next {
    /// Send the request and hand its answer to `on_answer`.
    Send(Request),
    /// Solve the puzzle, sign the key with the material, and hand `w` to `on_signed`.
    Solve(Assignment, PuzzleMaterial),
    /// Wait this many milliseconds, send the request, and hand its answer to `on_answer`.
    Submit(Request, u64),
    /// The solve is over.
    Finish(Result<String, GtError>),
}

/// One solve of a puzzle of a known family, from the parameter request to the
/// verdict, optionally followed by fresh puzzles after curable failures.
#[derive(Debug)]
pub struct Handshake {
    kind: PuzzleKind,
    gt: String,
    challenge: String,
    callback: String,
    material: PuzzleMaterial,
    stage: Stage,
    retry: Option<RetryDriver>,
}

/// The text a runner's answer carries, or the transport error in its place.
pub open spec fn answer_doc(answer: Result<String, GtError>, callback: Seq<char>) -> Result<Json, GtError> {
    then(text_view(answer), |t: Seq<char>| envelope_value(t, callback))
}

impl Handshake {
    pub closed spec fn spec_kind(&self) -> PuzzleKind {
        self.kind
    }

    pub closed spec fn spec_gt(&self) -> Seq<char> {
        self.gt@
    }

    /// The challenge the verdict will be asked for.
    pub closed spec fn spec_challenge(&self) -> Seq<char> {
        self.challenge@
    }

    /// The callback of the request in flight.
    pub closed spec fn spec_callback(&self) -> Seq<char> {
        self.callback@
    }

    pub closed spec fn spec_material(&self) -> (Seq<u8>, Seq<char>) {
        self.material@
    }

    pub closed spec fn spec_stage(&self) -> Stage {
        self.stage
    }

    /// Whether failed attempts are followed by refreshes.
    pub closed spec fn spec_retrying(&self) -> bool {
        self.retry is Some
    }

    pub closed spec fn spec_refreshes(&self) -> nat {
        match self.retry {
            Some(d) => d.spec_refreshes(),
            None => 0,
        }
    }

    pub closed spec fn spec_max_refreshes(&self) -> nat {
        match self.retry {
            Some(d) => d.spec_max_refreshes(),
            None => 0,
        }
    }

    pub closed spec fn wf(&self) -> bool {
        self.retry matches Some(d) ==> d.wf()
    }

    /// The decision after an attempt ends with `outcome`.
    pub open spec fn after_attempt(&self, outcome: Result<Seq<char>, GtError>) -> Option<Result<Seq<char>, GtError>> {
        if self.spec_retrying() {
            decide(self.spec_refreshes(), self.spec_max_refreshes(), outcome)
        } else {
            Some(outcome)
        }
    }

    /// Starts a solve: the first step asks for the `(c, s)` pair. With
    /// `max_refreshes` given, an attempt that fails curably is followed by a
    /// fresh puzzle, at most that many times.
    pub fn start(kind: PuzzleKind, gt: &str, challenge: &str, max_refreshes: Option<u64>, millis: u64) -> (r: (Handshake, Request))
        ensures
            r.0.wf(),
            r.0.spec_kind() == kind,
            r.0.spec_gt() == gt@,
            r.0.spec_challenge() == challenge@,
            r.0.spec_callback() == callback_name(millis as nat),
            r.0.spec_stage() == Stage::Params,
            r.0.spec_retrying() == max_refreshes is Some,
            r.0.spec_refreshes() == 0,
            max_refreshes matches Some(m) ==> r.0.spec_max_refreshes() == m,
            r.1@ == (params_url(), signed_query(gt@, challenge@, callback_name(millis as nat), None)),
    {
        let callback = callback_token(millis);
        let request = crate::request::params_request(gt, challenge, callback.as_str(), None);
        let retry = match max_refreshes {
            Some(m) => Some(RetryDriver::new(m)),
            None => None,
        };
        let h = Handshake {
            kind,
            gt: String::from_str(gt),
            challenge: String::from_str(challenge),
            callback,
            material: PuzzleMaterial { c: Vec::new(), s: String::new() },
            stage: Stage::Params,
            retry,
        };
        (h, request)
    }

    /// Takes the answer to the request in flight (or the transport error that
    /// came instead) and decides the next step.
    pub fn on_answer(&mut self, answer: Result<String, GtError>, millis: u64) -> (r: Next)
        requires
            old(self).wf(),
            old(self).spec_stage() != Stage::Solving,
            old(self).spec_stage() != Stage::Finished,
        ensures
            final(self).wf(),
            final(self).spec_kind() == old(self).spec_kind(),
            final(self).spec_gt() == old(self).spec_gt(),
            final(self).spec_retrying() == old(self).spec_retrying(),
            final(self).spec_max_refreshes() == old(self).spec_max_refreshes(),
            answered(*old(self), *final(self), answer, millis as nat, r),
    {
        let text = match answer {
            Ok(t) => t,
            Err(e) => {
                if self.stage == Stage::Verdict {
                    return self.conclude(Err(e), millis);
                }
                self.stage = Stage::Finished;
                return Next::Finish(Err(e));
            },
        };
        match self.stage {
            Stage::Params => match decode_params(text.as_str(), self.callback.as_str()) {
                Ok(m) => {
                    self.material = m;
                    self.callback = callback_token(millis);
                    self.stage = Stage::Type;
                    Next::Send(type_request(self.gt.as_str(), self.challenge.as_str(), self.callback.as_str(), None))
                },
                Err(e) => {
                    self.stage = Stage::Finished;
                    Next::Finish(Err(e))
                },
            },
            Stage::Type => match decode_kind(text.as_str(), self.callback.as_str()) {
                Ok(_) => {
                    self.callback = callback_token(millis);
                    self.stage = Stage::Puzzle;
                    Next::Send(puzzle_request(self.kind, self.gt.as_str(), self.challenge.as_str(), self.callback.as_str()))
                },
                Err(e) => {
                    self.stage = Stage::Finished;
                    Next::Finish(Err(e))
                },
            },
            Stage::Puzzle => match self.kind {
                PuzzleKind::Click => match decode_click_puzzle(text.as_str(), self.callback.as_str()) {
                    Ok(p) => {
                        self.stage = Stage::Solving;
                        Next::Solve(Assignment::Click(p.pic_url), self.material_copy())
                    },
                    Err(e) => {
                        self.stage = Stage::Finished;
                        Next::Finish(Err(e))
                    },
                },
                PuzzleKind::Slide => match decode_slide_puzzle(text.as_str(), self.callback.as_str()) {
                    Ok(p) => {
                        self.challenge = p.challenge.clone();
                        self.stage = Stage::Solving;
                        Next::Solve(Assignment::Slide(p), self.material_copy())
                    },
                    Err(e) => {
                        self.stage = Stage::Finished;
                        Next::Finish(Err(e))
                    },
                },
            },
            Stage::Refreshing => match decode_refresh(text.as_str(), self.callback.as_str(), PuzzleKind::Click) {
                Ok(url) => {
                    self.stage = Stage::Solving;
                    Next::Solve(Assignment::Click(url), self.material_copy())
                },
                Err(e) => {
                    self.stage = Stage::Finished;
                    Next::Finish(Err(e))
                },
            },
            _ => {
                let outcome = match decode_submission(text.as_str(), self.callback.as_str(), self.kind) {
                    Ok(v) => Ok(v.validate),
                    Err(e) => Err(e),
                };
                self.conclude(outcome, millis)
            },
        }
    }

    /// Takes the signed token for the puzzle handed out (or why solving or
    /// signing failed) and the milliseconds solving took.
    pub fn on_signed(&mut self, signed: Result<String, GtError>, elapsed_millis: u64, millis: u64) -> (r: Next)
        requires
            old(self).wf(),
            old(self).spec_stage() == Stage::Solving,
        ensures
            final(self).wf(),
            final(self).spec_kind() == old(self).spec_kind(),
            final(self).spec_gt() == old(self).spec_gt(),
            final(self).spec_challenge() == old(self).spec_challenge(),
            final(self).spec_material() == old(self).spec_material(),
            final(self).spec_retrying() == old(self).spec_retrying(),
            final(self).spec_max_refreshes() == old(self).spec_max_refreshes(),
            match signed {
                Ok(w) => final(self).spec_stage() == Stage::Verdict
                    && final(self).spec_callback() == callback_name(millis as nat)
                    && final(self).spec_refreshes() == old(self).spec_refreshes()
                    && (r matches Next::Submit(q, wait) && wait == wait_for(elapsed_millis as nat)
                        && q@ == (submission_url(old(self).spec_kind()), signed_query(
                            old(self).spec_gt(), old(self).spec_challenge(), callback_name(millis as nat), Some(w@)))),
                Err(e) => concluded(*old(self), *final(self), Err(e), millis as nat, r),
            },
    {
        match signed {
            Ok(w) => {
                self.callback = callback_token(millis);
                self.stage = Stage::Verdict;
                let q = submission_request(self.kind, self.gt.as_str(), self.challenge.as_str(), self.callback.as_str(), Some(w.as_str()));
                Next::Submit(q, remaining_wait_millis(elapsed_millis))
            },
            Err(e) => self.conclude(Err(e), millis),
        }
    }

    fn material_copy(&self) -> (r: PuzzleMaterial)
        ensures
            r@ == self.spec_material(),
    {
        PuzzleMaterial { c: self.material.c.clone(), s: self.material.s.clone() }
    }

    /// The stage the solve is at.
    pub fn stage(&self) -> (r: Stage)
        ensures
            r == self.spec_stage(),
    {
        self.stage
    }

    /// The refreshes made so far.
    pub fn refreshes(&self) -> (r: u64)
        ensures
            r == self.spec_refreshes(),
    {
        match &self.retry {
            Some(d) => d.refreshes(),
            None => 0,
        }
    }

    /// Ends the current attempt with `outcome`: finish, or ask for a fresh puzzle.
    fn conclude(&mut self, outcome: Result<String, GtError>, millis: u64) -> (r: Next)
        requires
            old(self).wf(),
        ensures
            final(self).wf(),
            final(self).spec_kind() == old(self).spec_kind(),
            final(self).spec_gt() == old(self).spec_gt(),
            final(self).spec_challenge() == old(self).spec_challenge(),
            final(self).spec_material() == old(self).spec_material(),
            final(self).spec_retrying() == old(self).spec_retrying(),
            final(self).spec_max_refreshes() == old(self).spec_max_refreshes(),
            concluded(*old(self), *final(self), outcome_view(outcome), millis as nat, r),
    {
        let ghost before = *self;
        let step = match &mut self.retry {
            Some(d) => d.on_outcome(outcome),
            None => RetryStep::Finish(outcome),
        };
        match step {
            RetryStep::Finish(res) => {
                self.stage = Stage::Finished;
                Next::Finish(res)
            },
            RetryStep::Refresh => match self.kind {
                PuzzleKind::Click => {
                    self.callback = callback_token(millis);
                    self.stage = Stage::Refreshing;
                    Next::Send(refresh_request(self.gt.as_str(), self.challenge.as_str(), self.callback.as_str()))
                },
                PuzzleKind::Slide => {
                    self.stage = Stage::Finished;
                    Next::Finish(Err(GtError::NotImplemented))
                },
            },
        }
    }
}

/// The solve ends with the error `e`.
pub open spec fn failed_with(new: Handshake, r: Next, e: GtError) -> bool {
    new.spec_stage() == Stage::Finished && (r matches Next::Finish(x) && x == Err::<String, GtError>(e))
}

/// The step that follows the answer `answer` to the request in flight.
pub open spec fn answered(old: Handshake, new: Handshake, answer: Result<String, GtError>, millis: nat, r: Next) -> bool {
    let doc = answer_doc(answer, old.spec_callback());
    let cb = callback_name(millis);
    let gt = old.spec_gt();
    let ch = old.spec_challenge();
    &&& (old.spec_stage() != Stage::Verdict ==> new.spec_refreshes() == old.spec_refreshes())
    &&& (old.spec_stage() != Stage::Puzzle ==> new.spec_challenge() == old.spec_challenge())
    &&& match old.spec_stage() {
        Stage::Params => match then(doc, |d: Json| params_of(d)) {
            Err(e) => failed_with(new, r, e),
            Ok(m) => new.spec_stage() == Stage::Type && new.spec_material() == m
                && new.spec_challenge() == ch && new.spec_callback() == cb
                && (r matches Next::Send(q) && q@ == (type_url(), signed_query(gt, ch, cb, None))),
        },
        Stage::Type => match then(doc, |d: Json| kind_of(d)) {
            Err(e) => failed_with(new, r, e),
            Ok(_) => new.spec_stage() == Stage::Puzzle && new.spec_material() == old.spec_material()
                && new.spec_challenge() == ch && new.spec_callback() == cb
                && (r matches Next::Send(q) && q@ == (puzzle_url(old.spec_kind()), puzzle_query(old.spec_kind(), gt, ch, cb))),
        },
        Stage::Puzzle => match old.spec_kind() {
            PuzzleKind::Click => match then(doc, |d: Json| click_puzzle_of(d)) {
                Err(e) => failed_with(new, r, e),
                Ok(p) => new.spec_stage() == Stage::Solving && new.spec_material() == old.spec_material()
                    && new.spec_challenge() == ch
                    && (r matches Next::Solve(Assignment::Click(u), mat) && u@ == p.1 && mat@ == old.spec_material()),
            },
            PuzzleKind::Slide => match then(doc, |d: Json| slide_puzzle_of(d)) {
                Err(e) => failed_with(new, r, e),
                Ok(p) => new.spec_stage() == Stage::Solving && new.spec_material() == old.spec_material()
                    && new.spec_challenge() == p.1
                    && (r matches Next::Solve(Assignment::Slide(sp), mat) && sp@ == p && mat@ == old.spec_material()),
            },
        },
        Stage::Refreshing => match then(doc, |d: Json| click_refresh_of(d)) {
            Err(e) => failed_with(new, r, e),
            Ok(url) => new.spec_stage() == Stage::Solving && new.spec_material() == old.spec_material()
                && new.spec_challenge() == ch
                && (r matches Next::Solve(Assignment::Click(u), mat) && u@ == url && mat@ == old.spec_material()),
        },
        Stage::Verdict => new.spec_material() == old.spec_material() && new.spec_challenge() == ch
            && concluded(old, new, verdict_of(doc, old.spec_kind()), millis, r),
        _ => true,
    }
}

/// The validate string of a verdict document, or why there is none.
pub open spec fn verdict_of(doc: Result<Json, GtError>, kind: PuzzleKind) -> Result<Seq<char>, GtError> {
    then(doc, |d: Json| then(
        match kind {
            PuzzleKind::Click => click_submission_of(d),
            PuzzleKind::Slide => slide_submission_of(d),
        },
        |v: (Seq<char>, Seq<char>)| Ok(v.1),
    ))
}

/// How an attempt that ended with `outcome` is concluded.
pub open spec fn concluded(old: Handshake, new: Handshake, outcome: Result<Seq<char>, GtError>, millis: nat, r: Next) -> bool {
    match old.after_attempt(outcome) {
        Some(res) => new.spec_stage() == Stage::Finished && new.spec_refreshes() == old.spec_refreshes()
            && (r matches Next::Finish(x) && outcome_view(x) == res),
        None => new.spec_refreshes() == old.spec_refreshes() + 1 && match old.spec_kind() {
            PuzzleKind::Click => new.spec_stage() == Stage::Refreshing
                && new.spec_callback() == callback_name(millis)
                && (r matches Next::Send(q) && q@ == (refresh_url(), base_query(old.spec_gt(), old.spec_challenge(), callback_name(millis)))),
            PuzzleKind::Slide => new.spec_stage() == Stage::Finished
                && (r matches Next::Finish(x) && x == Err::<String, GtError>(GtError::NotImplemented)),
        },
    }
}

/// Whether a stage belongs to the attempt loop: solving, awaiting a verdict,
/// awaiting a fresh puzzle, or over.
pub open spec fn in_attempts(s: Stage) -> bool {
    s == Stage::Solving || s == Stage::Verdict || s == Stage::Refreshing || s == Stage::Finished
}

/// Once an attempt has begun, the parameter, type and puzzle steps never run
/// again: every request sent from then on is a refresh for the caller's `gt`
/// and challenge, and every failed attempt adds one refresh or ends the solve.
pub proof fn lemma_attempts_never_restart(old: Handshake, new: Handshake, answer: Result<String, GtError>, millis: nat, r: Next)
    requires
        old.spec_stage() == Stage::Verdict || old.spec_stage() == Stage::Refreshing,
        answered(old, new, answer, millis, r),
    ensures
        in_attempts(new.spec_stage()),
        new.spec_challenge() == old.spec_challenge(),
        new.spec_refreshes() == old.spec_refreshes() || new.spec_refreshes() == old.spec_refreshes() + 1,
        r matches Next::Send(q) ==> q@ == (refresh_url(), base_query(old.spec_gt(), old.spec_challenge(), callback_name(millis))),
{
    if old.spec_stage() == Stage::Verdict {
        lemma_attempt_end_refreshes_or_finishes(old, new, verdict_of(answer_doc(answer, old.spec_callback()), old.spec_kind()), millis, r);
    }
}

/// However an attempt ends, the handshake either asks for a fresh puzzle for
/// the caller's `gt` and challenge or finishes; it never returns to the
/// earlier steps.
pub proof fn lemma_attempt_end_refreshes_or_finishes(old: Handshake, new: Handshake, outcome: Result<Seq<char>, GtError>, millis: nat, r: Next)
    requires
        concluded(old, new, outcome, millis, r),
    ensures
        new.spec_stage() == Stage::Refreshing || new.spec_stage() == Stage::Finished,
        r matches Next::Send(q) ==> q@ == (refresh_url(), base_query(old.spec_gt(), old.spec_challenge(), callback_name(millis))),
{
}

} // verus!
