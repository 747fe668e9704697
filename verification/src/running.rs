//! The last looks at whether the clients of the sites are running.

use vstd::prelude::*;

use crate::variant::WbVariant;

verus! {

/// For how many milliseconds a look at the running programs counts.
pub const FRESH_MILLIS: u64 = 3000;

/// What a look at the running programs showed.
#[derive(Debug, Clone, Copy, PartialEq, Eq, Structural)]
pub struct RunningLook {
    pub variant: WbVariant,
    pub running: bool,
}

/// What the last look, `age_millis` ago, still says of the client of `variant`:
/// nothing where it is too old or was at the client of the other site.
pub fn cached_workbuddy_running(
    last: Option<RunningLook>,
    age_millis: u64,
    variant: WbVariant,
) -> (r: Option<bool>)
    ensures
        r == match last {
            Some(look) if look.variant == variant && age_millis < FRESH_MILLIS => Some(look.running),
            _ => None::<bool>,
        },
{
    match last {
        Some(look) => if look.variant == variant && age_millis < FRESH_MILLIS {
            Some(look.running)
        } else {
            None
        },
        None => None,
    }
}

/// What a look showed, and when it was taken.
#[derive(Debug, Clone, Copy, PartialEq, Eq, Structural)]
pub struct NotedLook {
    pub running: bool,
    pub taken_millis: u64,
}

/// The last look at the client of each site. Where looking costs little, looks
/// are not kept.
#[derive(Debug)]
pub struct RunningCache {
    keeps: bool,
    cn: Option<NotedLook>,
    ai: Option<NotedLook>,
}

/// What a [`RunningCache`] holds.
pub struct CacheView {
    pub keeps: bool,
    pub cn: Option<NotedLook>,
    pub ai: Option<NotedLook>,
}

impl View for RunningCache {
    type V = CacheView;

    closed spec fn view(&self) -> CacheView {
        CacheView { keeps: self.keeps, cn: self.cn, ai: self.ai }
    }
}

/// A question whether the client of a site is running, asked at `asked`. Where
/// nothing is known, a look is taken; it shows `shown` and ends at `taken`.
pub struct Question {
    pub site: WbVariant,
    pub asked: u64,
    pub shown: bool,
    pub taken: u64,
}

impl CacheView {
    pub open spec fn empty(keeps: bool) -> CacheView {
        CacheView { keeps, cn: None, ai: None }
    }

    /// The last look at the client of `site`.
    pub open spec fn slot(self, site: WbVariant) -> Option<NotedLook> {
        match site {
            WbVariant::Cn => self.cn,
            WbVariant::Ai => self.ai,
        }
    }

    /// What is still known at `now` of the client of `site`.
    pub open spec fn known(self, site: WbVariant, now: u64) -> Option<bool> {
        match self.slot(site) {
            Some(look) if self.keeps && now - look.taken_millis < FRESH_MILLIS => Some(look.running),
            _ => None,
        }
    }

    /// The cache after a look at the client of `site`.
    pub open spec fn noted(self, site: WbVariant, running: bool, taken_millis: u64) -> CacheView {
        let look = Some(NotedLook { running, taken_millis });
        match site {
            WbVariant::Cn => CacheView { cn: look, ..self },
            WbVariant::Ai => CacheView { ai: look, ..self },
        }
    }

    /// The answer to a question: what is known, else what the look shows.
    pub open spec fn answer(self, question: Question) -> bool {
        match self.known(question.site, question.asked) {
            Some(running) => running,
            None => question.shown,
        }
    }

    /// The cache after a question: a look is noted where one was taken.
    pub open spec fn after(self, question: Question) -> CacheView {
        match self.known(question.site, question.asked) {
            Some(_) => self,
            None => self.noted(question.site, question.shown, question.taken),
        }
    }
}

impl RunningCache {
    /// No looks yet; `keeps` says whether they are to be kept.
    pub fn new(keeps: bool) -> (r: RunningCache)
        ensures
            r@ == CacheView::empty(keeps),
    {
        RunningCache { keeps, cn: None, ai: None }
    }

    /// What is still known at `now` of the client of `variant`; where nothing is,
    /// a new look has to be taken.
    pub fn known(&self, variant: WbVariant, now: u64) -> (r: Option<bool>)
        ensures
            r == self@.known(variant, now),
    {
        if !self.keeps {
            return None;
        }
        let slot = match variant {
            WbVariant::Cn => self.cn,
            WbVariant::Ai => self.ai,
        };
        match slot {
            Some(look) => {
                let age: u64 = if look.taken_millis < now {
                    now - look.taken_millis
                } else {
                    0
                };
                cached_workbuddy_running(
                    Some(RunningLook { variant, running: look.running }),
                    age,
                    variant,
                )
            },
            None => None,
        }
    }

    /// Notes a look at the client of `variant`. What is known of the other site
    /// stays as it is.
    pub fn note(&mut self, variant: WbVariant, running: bool, taken_millis: u64)
        ensures
            final(self)@ == old(self)@.noted(variant, running, taken_millis),
            forall|site: WbVariant|
                site != variant ==> #[trigger] final(self)@.slot(site) == old(self)@.slot(site),
    {
        let look = Some(NotedLook { running, taken_millis });
        match variant {
            WbVariant::Cn => {
                self.cn = look;
            },
            WbVariant::Ai => {
                self.ai = look;
            },
        }
    }

    /// Answers at `asked` whether the client of `variant` is running. Where nothing
    /// is known, and only there, `look` is taken; it gives what it shows and when
    /// it ended.
    pub fn running<F: FnOnce() -> (bool, u64)>(
        &mut self,
        variant: WbVariant,
        asked: u64,
        look: F,
    ) -> (r: bool)
        requires
            old(self)@.known(variant, asked) is None ==> look.requires(()),
        ensures
            old(self)@.known(variant, asked) is Some ==> r == old(self)@.known(
                variant,
                asked,
            )->Some_0 && final(self)@ == old(self)@,
            old(self)@.known(variant, asked) is None ==> exists|shown: bool, taken: u64| #[trigger]
                look.ensures((), (shown, taken)) && {
                    let question = Question { site: variant, asked, shown, taken };
                    r == old(self)@.answer(question) && final(self)@ == old(self)@.after(question)
                },
    {
        match self.known(variant, asked) {
            Some(running) => running,
            None => {
                let (shown, taken) = look();
                self.note(variant, shown, taken);
                shown
            },
        }
    }
}

/// Noting a look at the client of one site changes nothing in what is known of
/// the other, at any time.
pub proof fn law_sites_are_noted_apart(
    cache: CacheView,
    site: WbVariant,
    running: bool,
    taken_millis: u64,
    other: WbVariant,
    now: u64,
)
    requires
        site != other,
    ensures
        cache.noted(site, running, taken_millis).known(other, now) == cache.known(other, now),
{
}

/// What was just noted of a site is known of it until it is too old, where looks
/// are kept.
pub proof fn law_noted_look_is_known(
    cache: CacheView,
    site: WbVariant,
    running: bool,
    taken_millis: u64,
    now: u64,
)
    ensures
        cache.noted(site, running, taken_millis).known(site, now) == if cache.keeps && now
            - taken_millis < FRESH_MILLIS {
            Some(running)
        } else {
            None
        },
{
}

/// What the cache holds after all of `questions`.
pub open spec fn cache_after(cache: CacheView, questions: Seq<Question>) -> CacheView
    decreases questions.len(),
{
    if questions.len() == 0 {
        cache
    } else {
        cache_after(cache, questions.drop_last()).after(questions.last())
    }
}

/// What a cache that starts empty holds when question `n` is asked.
pub open spec fn cache_at(keeps: bool, questions: Seq<Question>, n: int) -> CacheView {
    cache_after(CacheView::empty(keeps), questions.take(n))
}

/// Whether a look is taken for question `n`.
pub open spec fn looks(keeps: bool, questions: Seq<Question>, n: int) -> bool {
    cache_at(keeps, questions, n).known(questions[n].site, questions[n].asked) is None
}

/// The answer to question `n`.
pub open spec fn answer_at(keeps: bool, questions: Seq<Question>, n: int) -> bool {
    cache_at(keeps, questions, n).answer(questions[n])
}

/// Every slot holds a look that was taken for a question about its own site.
proof fn lemma_slot_origin(keeps: bool, questions: Seq<Question>, n: int, site: WbVariant)
    requires
        0 <= n <= questions.len(),
    ensures
        ({
            let cache = cache_at(keeps, questions, n);
            &&& cache.keeps == keeps
            &&& cache.slot(site) matches Some(look) ==> exists|k: int|
                0 <= k < n && #[trigger] looks(keeps, questions, k) && questions[k].site == site
                    && questions[k].shown == look.running && questions[k].taken
                    == look.taken_millis
        }),
    decreases n,
{
    if n > 0 {
        lemma_slot_origin(keeps, questions, n - 1, site);
        assert(questions.take(n).drop_last() =~= questions.take(n - 1));
        assert(questions.take(n).last() == questions[n - 1]);
        if cache_at(keeps, questions, n).slot(site) != cache_at(keeps, questions, n - 1).slot(site) {
            assert(looks(keeps, questions, n - 1));
        }
    } else {
        assert(questions.take(n) =~= Seq::<Question>::empty());
    }
}

/// Every answer about a site is what a look at the client of that same site
/// showed: the look taken for this very question or, only where looks are kept,
/// one taken for a question before it and less than [`FRESH_MILLIS`] old.
pub proof fn law_answers_are_fresh_looks(keeps: bool, questions: Seq<Question>, n: int)
    requires
        0 <= n < questions.len(),
    ensures
        looks(keeps, questions, n) ==> answer_at(keeps, questions, n) == questions[n].shown,
        !keeps ==> looks(keeps, questions, n),
        !looks(keeps, questions, n) ==> exists|k: int|
            0 <= k < n && #[trigger] looks(keeps, questions, k) && questions[k].site
                == questions[n].site && questions[k].shown == answer_at(keeps, questions, n)
                && questions[n].asked - questions[k].taken < FRESH_MILLIS,
{
    lemma_slot_origin(keeps, questions, n, questions[n].site);
}

proof fn lemma_look_stays(questions: Seq<Question>, k: int, n: int)
    requires
        0 <= k < n <= questions.len(),
        looks(true, questions, k),
        forall|i: int|
            k < i < n && (#[trigger] questions[i]).site == questions[k].site ==> questions[i].asked
                - questions[k].taken < FRESH_MILLIS,
    ensures
        ({
            let cache = cache_at(true, questions, n);
            &&& cache.keeps
            &&& cache.slot(questions[k].site) == Some(
                NotedLook { running: questions[k].shown, taken_millis: questions[k].taken },
            )
        }),
    decreases n,
{
    assert(questions.take(n).drop_last() =~= questions.take(n - 1));
    assert(questions.take(n).last() == questions[n - 1]);
    lemma_slot_origin(true, questions, n - 1, questions[k].site);
    if n - 1 > k {
        lemma_look_stays(questions, k, n - 1);
    }
}

/// Where looks are kept, a look answers every question about its site until it
/// is too old, and no look is taken for them: whatever is asked about the other
/// site meanwhile takes nothing from it.
pub proof fn law_look_is_kept(questions: Seq<Question>, k: int, n: int)
    requires
        0 <= k < n < questions.len(),
        looks(true, questions, k),
        questions[n].site == questions[k].site,
        forall|i: int|
            k < i <= n && (#[trigger] questions[i]).site == questions[k].site ==> questions[i].asked
                - questions[k].taken < FRESH_MILLIS,
    ensures
        !looks(true, questions, n),
        answer_at(true, questions, n) == questions[k].shown,
{
    lemma_look_stays(questions, k, n);
}

} // verus!
