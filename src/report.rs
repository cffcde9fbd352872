use vstd::prelude::*;
use crate::convert::{Failure, Stage};
use crate::evernote;
use crate::filename::file_name_of;
use crate::markdown::{document_of, yaml_of};

verus! {

/// The titles of the notes that were converted, in order.
pub open spec fn converted_titles(outcomes: Seq<Result<String, Failure>>) -> Seq<Seq<char>>
    decreases outcomes.len(),
{
    if outcomes.len() == 0 {
        Seq::empty()
    } else {
        let r = converted_titles(outcomes.drop_last());
        match outcomes.last() {
            Ok(t) => r.push(t@),
            Err(_) => r,
        }
    }
}

/// The failures among the outcomes, in order.
pub open spec fn failures_of(outcomes: Seq<Result<String, Failure>>) -> Seq<Failure>
    decreases outcomes.len(),
{
    if outcomes.len() == 0 {
        Seq::empty()
    } else {
        let r = failures_of(outcomes.drop_last());
        match outcomes.last() {
            Ok(_) => r,
            Err(f) => r.push(f),
        }
    }
}

/// What a run did with its notes: the titles of those converted and the
/// failures of the others, each in the order in which they were recorded.
pub struct RunReport {
    pub converted: Vec<String>,
    pub failures: Vec<Failure>,
}

impl RunReport {
    /// A report of a run in which nothing has been recorded yet.
    pub fn new() -> (r: RunReport)
        ensures
            r.converted@.len() == 0,
            r.failures@.len() == 0,
    {
        RunReport { converted: Vec::new(), failures: Vec::new() }
    }

    /// Records the outcome of one note: its title where it was converted, its
    /// failure where not.
    pub fn record(&mut self, outcome: Result<String, Failure>)
        ensures
            match outcome {
                Ok(t) => final(self).converted.deep_view() == old(self).converted.deep_view().push(
                    t@,
                ) && final(self).failures@ == old(self).failures@,
                Err(f) => final(self).converted.deep_view() == old(self).converted.deep_view()
                    && final(self).failures@ == old(self).failures@.push(f),
            },
    {
        match outcome {
            Ok(t) => {
                self.converted.push(t);
                assert(self.converted.deep_view() =~= old(self).converted.deep_view().push(t@));
            },
            Err(f) => {
                self.failures.push(f);
                assert(self.converted.deep_view() =~= old(self).converted.deep_view());
            },
        }
    }

    /// The report of a run whose notes had these outcomes, in this order.
    pub fn from_outcomes(outcomes: Vec<Result<String, Failure>>) -> (r: RunReport)
        ensures
            r.converted.deep_view() == converted_titles(outcomes@),
            r.failures@ == failures_of(outcomes@),
            r.converted@.len() + r.failures@.len() == outcomes@.len(),
    {
        let ghost all = outcomes@;
        let mut rest = outcomes;
        let mut r = RunReport::new();
        let ghost mut done: int = 0;
        assert(r.converted.deep_view() =~= converted_titles(all.subrange(0, 0)));
        assert(r.failures@ =~= failures_of(all.subrange(0, 0)));
        while rest.len() > 0
            invariant
                0 <= done <= all.len(),
                rest@ == all.subrange(done, all.len() as int),
                r.converted.deep_view() == converted_titles(all.subrange(0, done)),
                r.failures@ == failures_of(all.subrange(0, done)),
                r.converted@.len() + r.failures@.len() == done,
            decreases rest.len(),
        {
            let o = rest.remove(0);
            proof {
                assert(all.subrange(0, done + 1).drop_last() == all.subrange(0, done));
                assert(all.subrange(0, done + 1).last() == o);
            }
            r.record(o);
            proof {
                done = done + 1;
                assert(rest@ =~= all.subrange(done, all.len() as int));
            }
        }
        assert(all.subrange(0, all.len() as int) == all);
        r
    }

    /// Whether every note of the run was converted.
    pub fn is_success(&self) -> (r: bool)
        ensures
            r == (self.failures@.len() == 0),
    {
        self.failures.len() == 0
    }

    /// How many notes were converted.
    pub fn converted_count(&self) -> (r: usize)
        ensures
            r == self.converted@.len(),
    {
        self.converted.len()
    }

    /// How many notes failed.
    pub fn failure_count(&self) -> (r: usize)
        ensures
            r == self.failures@.len(),
    {
        self.failures.len()
    }
}

/// The outcome of a note whose document was to be written, given what writing
/// it returned: its title where the file was written, a write failure where not.
pub fn outcome_of_write(title: String, written: Result<(), String>) -> (r: Result<String, Failure>)
    ensures
        match written {
            Ok(()) => r matches Ok(t) && t@ == title@,
            Err(e) => r matches Err(f) && f.title@ == title@ && f.stage == Stage::Write
                && f.message@ == e@,
        },
{
    match written {
        Ok(()) => Ok(title),
        Err(e) => Err(Failure { title, stage: Stage::Write, message: e }),
    }
}

/// Where every outcome but the one at `k` is a success, the run converted all
/// notes but that one, and its failure is the only one reported.
pub proof fn lemma_one_failure(outcomes: Seq<Result<String, Failure>>, k: int)
    requires
        0 <= k < outcomes.len(),
        outcomes[k] is Err,
        forall|i: int| 0 <= i < outcomes.len() && i != k ==> #[trigger] outcomes[i] is Ok,
    ensures
        converted_titles(outcomes).len() == outcomes.len() - 1,
        failures_of(outcomes) == seq![outcomes[k]->Err_0],
    decreases outcomes.len(),
{
    let p = outcomes.drop_last();
    if k == outcomes.len() - 1 {
        lemma_all_converted(p);
    } else {
        assert forall|i: int| 0 <= i < p.len() && i != k implies #[trigger] p[i] is Ok by {
            assert(p[i] == outcomes[i]);
        }
        assert(p[k] == outcomes[k]);
        lemma_one_failure(p, k);
        assert(outcomes.last() == outcomes[outcomes.len() - 1]);
    }
}

/// Where every outcome is a success, all notes were converted and no failure is
/// reported.
pub proof fn lemma_all_converted(outcomes: Seq<Result<String, Failure>>)
    requires
        forall|i: int| 0 <= i < outcomes.len() ==> #[trigger] outcomes[i] is Ok,
    ensures
        converted_titles(outcomes).len() == outcomes.len(),
        failures_of(outcomes) == Seq::<Failure>::empty(),
    decreases outcomes.len(),
{
    if outcomes.len() > 0 {
        let p = outcomes.drop_last();
        assert forall|i: int| 0 <= i < p.len() implies #[trigger] p[i] is Ok by {
            assert(p[i] == outcomes[i]);
        }
        lemma_all_converted(p);
        assert(outcomes.last() == outcomes[outcomes.len() - 1]);
    }
}

/// Converting a note is deterministic: two notes with the same title, tags and
/// body, whose bodies the engine turned into the same Markdown, give the same
/// file name and the same text.
pub proof fn lemma_conversion_deterministic(
    a: evernote::Note,
    b: evernote::Note,
    md_a: Seq<char>,
    md_b: Seq<char>,
)
    requires
        a.title@ == b.title@,
        a.tags.deep_view() == b.tags.deep_view(),
        md_a == md_b,
    ensures
        file_name_of(a.title@) == file_name_of(b.title@),
        document_of(yaml_of(a.title@, a.tags.deep_view()), md_a) == document_of(
            yaml_of(b.title@, b.tags.deep_view()),
            md_b,
        ),
{
}

} // verus!
