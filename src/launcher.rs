use vstd::prelude::*;
use crate::data::{contains_text, texts, DataHolder};
use crate::error::{Failure, SniprunError};
use crate::level::{level_rank, SupportLevel};

verus! {

/// The name of the catch-all backend that wins when nothing else ranks.
pub const FALLBACK_NAME: &'static str = "Generic";

/// What the dispatcher knows of one registered backend.
#[derive(Clone, Debug)]
pub struct BackendEntry {
    pub name: String,
    /// The language tags that the backend accepts.
    pub languages: Vec<String>,
    /// The most that the backend can run.
    pub max_level: SupportLevel,
}

/// The ranking's record so far: the leading name and level, and whether an
/// explicit selection has ended the ranking.
pub struct RankState {
    pub name: Seq<char>,
    pub level: SupportLevel,
    pub stopped: bool,
}

/// Whether `e` accepts the language tag `tag`.
pub open spec fn accepts(e: BackendEntry, tag: Seq<char>) -> bool {
    texts(e.languages@).contains(tag)
}

/// The ranking after the first `n` registered backends have been looked at.
pub open spec fn rank_prefix(
    reg: Seq<BackendEntry>,
    tag: Seq<char>,
    picked: Seq<Seq<char>>,
    n: nat,
) -> RankState
    decreases n,
{
    if n == 0 {
        RankState { name: FALLBACK_NAME@, level: SupportLevel::Unsupported, stopped: false }
    } else {
        let prev = rank_prefix(reg, tag, picked, (n - 1) as nat);
        let e = reg[n - 1];
        if prev.stopped || !accepts(e, tag) {
            prev
        } else if picked.contains(e.name@) {
            RankState { name: e.name@, level: SupportLevel::Selected, stopped: true }
        } else if level_rank(e.max_level) > level_rank(prev.level) {
            RankState { name: e.name@, level: e.max_level, stopped: false }
        } else {
            prev
        }
    }
}

/// The ranking of the whole registry for a request.
pub open spec fn ranking(reg: Seq<BackendEntry>, data: DataHolder) -> RankState {
    rank_prefix(reg, data.filetype@, texts(data.selected_interpreters@), reg.len())
}

/// The first index in `reg` at or after `from` whose name is `name`.
pub open spec fn find_from(reg: Seq<BackendEntry>, name: Seq<char>, from: nat) -> Option<nat>
    decreases reg.len() - from,
{
    if from >= reg.len() {
        None
    } else if reg[from as int].name@ == name {
        Some(from)
    } else {
        find_from(reg, name, from + 1)
    }
}

/// The backend that a dispatch resolves to: where it stands in the registry,
/// and the level at which it is to run.
#[derive(Clone, Copy, Debug, PartialEq, Eq, Structural)]
pub struct Selection {
    pub index: usize,
    pub level: SupportLevel,
}

/// What a dispatch returns for a request over a registry.
pub open spec fn dispatch(reg: Seq<BackendEntry>, data: DataHolder) -> Result<Selection, Failure> {
    let r = ranking(reg, data);
    match find_from(reg, r.name, 0) {
        Some(i) => Ok(Selection { index: i as usize, level: r.level }),
        None => Err(Failure::NoInterpreterFound),
    }
}

/// The model of a dispatch's result.
pub open spec fn selection_view(r: Result<Selection, SniprunError>) -> Result<Selection, Failure> {
    match r {
        Ok(s) => Ok(s),
        Err(e) => Err(e@),
    }
}

/// Chooses a backend for a request and runs nothing.
pub struct Launcher {
    pub data: DataHolder,
}

impl Launcher {
    pub fn new(data: DataHolder) -> (r: Self)
        ensures
            r.data == data,
    {
        Launcher { data }
    }

    /// Ranks the registry for this request: the name and level of the best
    /// backend, with explicit selection overriding the ranking by level and
    /// the earlier registration winning a tie.
    pub fn rank(&self, registry: &Vec<BackendEntry>) -> (r: (String, SupportLevel))
        ensures
            r.0@ == ranking(registry@, self.data).name,
            r.1 == ranking(registry@, self.data).level,
    {
        let ghost tag = self.data.filetype@;
        let ghost picked = texts(self.data.selected_interpreters@);
        let mut best_level = SupportLevel::Unsupported;
        let mut best_name = String::from_str(FALLBACK_NAME);
        let mut skip_all = false;
        let mut i: usize = 0;
        while i < registry.len()
            invariant
                i <= registry@.len(),
                tag == self.data.filetype@,
                picked == texts(self.data.selected_interpreters@),
                best_name@ == rank_prefix(registry@, tag, picked, i as nat).name,
                best_level == rank_prefix(registry@, tag, picked, i as nat).level,
                skip_all == rank_prefix(registry@, tag, picked, i as nat).stopped,
            decreases registry@.len() - i,
        {
            let e = &registry[i];
            if !skip_all && contains_text(&e.languages, &self.data.filetype) {
                if contains_text(&self.data.selected_interpreters, &e.name) {
                    best_level = SupportLevel::Selected;
                    best_name = e.name.clone();
                    skip_all = true;
                } else if e.max_level.exceeds(&best_level) {
                    best_level = e.max_level;
                    best_name = e.name.clone();
                }
            }
            i = i + 1;
        }
        (best_name, best_level)
    }

    /// Resolves this request to one registered backend and its level; fails
    /// with `NoInterpreterFound` when no backend carries the winning name.
    pub fn select(&self, registry: &Vec<BackendEntry>) -> (r: Result<Selection, SniprunError>)
        ensures
            selection_view(r) == dispatch(registry@, self.data),
    {
        let (name, level) = self.rank(registry);
        match find_backend(registry, &name) {
            Some(i) => Ok(Selection { index: i, level }),
            None => Err(SniprunError::NoInterpreterFound),
        }
    }
}

/// The first index of `registry` whose backend is named `name`.
pub fn find_backend(registry: &Vec<BackendEntry>, name: &String) -> (r: Option<usize>)
    ensures
        match find_from(registry@, name@, 0) {
            Some(i) => r == Some(i as usize),
            None => r is None,
        },
{
    let mut i: usize = 0;
    while i < registry.len()
        invariant
            i <= registry@.len(),
            find_from(registry@, name@, 0) == find_from(registry@, name@, i as nat),
        decreases registry@.len() - i,
    {
        if registry[i].name == *name {
            return Some(i);
        }
        i = i + 1;
    }
    None
}

/// Looking at a prefix in which no backend accepts the tag leaves the
/// ranking where it started.
proof fn lemma_no_match_keeps_start(
    reg: Seq<BackendEntry>,
    tag: Seq<char>,
    picked: Seq<Seq<char>>,
    n: nat,
)
    requires
        n <= reg.len(),
        forall|i: int| 0 <= i < reg.len() ==> !accepts(#[trigger] reg[i], tag),
    ensures
        rank_prefix(reg, tag, picked, n) == (RankState {
            name: FALLBACK_NAME@,
            level: SupportLevel::Unsupported,
            stopped: false,
        }),
    decreases n,
{
    if n > 0 {
        lemma_no_match_keeps_start(reg, tag, picked, (n - 1) as nat);
        assert(!accepts(reg[n - 1], tag));
    }
}

/// A name that no backend carries at or after `from` is not found.
proof fn lemma_absent_name(reg: Seq<BackendEntry>, name: Seq<char>, from: nat)
    requires
        forall|i: int| 0 <= i < reg.len() ==> (#[trigger] reg[i]).name@ != name,
    ensures
        find_from(reg, name, from) is None,
    decreases reg.len() - from,
{
    if from < reg.len() {
        assert(reg[from as int].name@ != name);
        lemma_absent_name(reg, name, from + 1);
    }
}

/// When no registered backend accepts the request's language tag and no
/// backend carries the fallback's name, dispatch fails with
/// `NoInterpreterFound`.
pub proof fn lemma_nothing_matches(reg: Seq<BackendEntry>, data: DataHolder)
    requires
        forall|i: int| 0 <= i < reg.len() ==> !accepts(#[trigger] reg[i], data.filetype@),
        forall|i: int| 0 <= i < reg.len() ==> (#[trigger] reg[i]).name@ != FALLBACK_NAME@,
    ensures
        dispatch(reg, data) == Err::<Selection, Failure>(Failure::NoInterpreterFound),
{
    lemma_no_match_keeps_start(reg, data.filetype@, texts(data.selected_interpreters@), reg.len());
    lemma_absent_name(reg, FALLBACK_NAME@, 0);
}

/// Dispatch depends on the request only through its language tag and its
/// explicit selections: two requests that agree on those, whatever their
/// code, directory or order of listing, resolve to the same backend at the
/// same level over the same registry.
pub proof fn lemma_dispatch_deterministic(reg: Seq<BackendEntry>, a: DataHolder, b: DataHolder)
    requires
        a.filetype@ == b.filetype@,
        texts(a.selected_interpreters@).to_set() == texts(b.selected_interpreters@).to_set(),
    ensures
        ranking(reg, a) == ranking(reg, b),
        dispatch(reg, a) == dispatch(reg, b),
{
    let pa = texts(a.selected_interpreters@);
    let pb = texts(b.selected_interpreters@);
    assert forall|x: Seq<char>| pa.contains(x) == pb.contains(x) by {
        assert(pa.to_set().contains(x) == pa.contains(x));
        assert(pb.to_set().contains(x) == pb.contains(x));
    }
    lemma_rank_same_picks(reg, a.filetype@, pa, pb, reg.len());
}

/// The ranking reads the explicit selections only by membership.
proof fn lemma_rank_same_picks(
    reg: Seq<BackendEntry>,
    tag: Seq<char>,
    pa: Seq<Seq<char>>,
    pb: Seq<Seq<char>>,
    n: nat,
)
    requires
        forall|x: Seq<char>| pa.contains(x) == pb.contains(x),
    ensures
        rank_prefix(reg, tag, pa, n) == rank_prefix(reg, tag, pb, n),
    decreases n,
{
    if n > 0 {
        lemma_rank_same_picks(reg, tag, pa, pb, (n - 1) as nat);
        assert(pa.contains(reg[n - 1].name@) == pb.contains(reg[n - 1].name@));
    }
}

/// Before the first accepting, explicitly selected backend, the ranking
/// has not stopped.
proof fn lemma_not_stopped_before(
    reg: Seq<BackendEntry>,
    tag: Seq<char>,
    picked: Seq<Seq<char>>,
    n: nat,
)
    requires
        n <= reg.len(),
        forall|i: int|
            0 <= i < n ==> !(accepts(#[trigger] reg[i], tag) && picked.contains(reg[i].name@)),
    ensures
        !rank_prefix(reg, tag, picked, n).stopped,
    decreases n,
{
    if n > 0 {
        lemma_not_stopped_before(reg, tag, picked, (n - 1) as nat);
        assert(!(accepts(reg[n - 1], tag) && picked.contains(reg[n - 1].name@)));
    }
}

/// Once stopped on backend `j`, the ranking stays on it.
proof fn lemma_stays_stopped(
    reg: Seq<BackendEntry>,
    tag: Seq<char>,
    picked: Seq<Seq<char>>,
    j: nat,
    n: nat,
)
    requires
        j < n <= reg.len(),
        rank_prefix(reg, tag, picked, j + 1) == (RankState {
            name: reg[j as int].name@,
            level: SupportLevel::Selected,
            stopped: true,
        }),
    ensures
        rank_prefix(reg, tag, picked, n) == rank_prefix(reg, tag, picked, j + 1),
    decreases n,
{
    if n > j + 1 {
        lemma_stays_stopped(reg, tag, picked, j, (n - 1) as nat);
    }
}

/// Explicit selection overrides ranking: the first registered backend that
/// accepts the tag and that the caller picked by name wins at level
/// `Selected`, whatever levels the others declare.
pub proof fn lemma_explicit_selection_wins(reg: Seq<BackendEntry>, data: DataHolder, j: nat)
    requires
        j < reg.len() <= usize::MAX,
        accepts(reg[j as int], data.filetype@),
        texts(data.selected_interpreters@).contains(reg[j as int].name@),
        forall|i: int|
            0 <= i < j ==> !(accepts(#[trigger] reg[i], data.filetype@) && texts(
                data.selected_interpreters@,
            ).contains(reg[i].name@)),
    ensures
        ranking(reg, data).name == reg[j as int].name@,
        ranking(reg, data).level == SupportLevel::Selected,
        dispatch(reg, data) is Ok,
        dispatch(reg, data)->Ok_0.level == SupportLevel::Selected,
        reg[dispatch(reg, data)->Ok_0.index as int].name@ == reg[j as int].name@,
{
    let tag = data.filetype@;
    let picked = texts(data.selected_interpreters@);
    lemma_not_stopped_before(reg, tag, picked, j);
    lemma_stays_stopped(reg, tag, picked, j, reg.len());
    lemma_find_present(reg, reg[j as int].name@, 0, j);
}

/// A name carried at index `j`, at or after `from`, is found at or before `j`.
proof fn lemma_find_present(reg: Seq<BackendEntry>, name: Seq<char>, from: nat, j: nat)
    requires
        from <= j < reg.len(),
        reg[j as int].name@ == name,
    ensures
        find_from(reg, name, from) is Some,
        find_from(reg, name, from)->0 <= j,
        reg[find_from(reg, name, from)->0 as int].name@ == name,
    decreases j - from,
{
    if reg[from as int].name@ != name {
        lemma_find_present(reg, name, from + 1, j);
    }
}

/// Before index `w` the ranking stays below the level that `w` declares
/// and has not stopped; from `w` on it rests on `w`.
proof fn lemma_highest_prefix(
    reg: Seq<BackendEntry>,
    tag: Seq<char>,
    picked: Seq<Seq<char>>,
    w: nat,
    n: nat,
)
    requires
        w < reg.len(),
        n <= reg.len(),
        accepts(reg[w as int], tag),
        level_rank(reg[w as int].max_level) > 0,
        forall|i: int|
            0 <= i < reg.len() && accepts(#[trigger] reg[i], tag) ==> !picked.contains(
                reg[i].name@,
            ),
        forall|i: int|
            0 <= i < w && accepts(#[trigger] reg[i], tag) ==> level_rank(reg[i].max_level)
                < level_rank(reg[w as int].max_level),
        forall|i: int|
            w < i < reg.len() && accepts(#[trigger] reg[i], tag) ==> level_rank(
                reg[i].max_level,
            ) <= level_rank(reg[w as int].max_level),
    ensures
        !rank_prefix(reg, tag, picked, n).stopped,
        n <= w ==> level_rank(rank_prefix(reg, tag, picked, n).level) < level_rank(
            reg[w as int].max_level,
        ),
        n > w ==> rank_prefix(reg, tag, picked, n).name == reg[w as int].name@,
        n > w ==> rank_prefix(reg, tag, picked, n).level == reg[w as int].max_level,
    decreases n,
{
    if n > 0 {
        lemma_highest_prefix(reg, tag, picked, w, (n - 1) as nat);
        let e = reg[n - 1];
        if accepts(e, tag) {
            assert(!picked.contains(e.name@));
        }
    }
}

/// Ranking by level: when the caller picked none of the accepting backends,
/// the one with the highest declared level wins at that level, and among
/// equals the one registered first.
pub proof fn lemma_first_highest_wins(reg: Seq<BackendEntry>, data: DataHolder, w: nat)
    requires
        w < reg.len(),
        accepts(reg[w as int], data.filetype@),
        level_rank(reg[w as int].max_level) > 0,
        forall|i: int|
            0 <= i < reg.len() && accepts(#[trigger] reg[i], data.filetype@) ==> !texts(
                data.selected_interpreters@,
            ).contains(reg[i].name@),
        forall|i: int|
            0 <= i < w && accepts(#[trigger] reg[i], data.filetype@) ==> level_rank(
                reg[i].max_level,
            ) < level_rank(reg[w as int].max_level),
        forall|i: int|
            w < i < reg.len() && accepts(#[trigger] reg[i], data.filetype@) ==> level_rank(
                reg[i].max_level,
            ) <= level_rank(reg[w as int].max_level),
    ensures
        ranking(reg, data).name == reg[w as int].name@,
        ranking(reg, data).level == reg[w as int].max_level,
{
    lemma_highest_prefix(
        reg,
        data.filetype@,
        texts(data.selected_interpreters@),
        w,
        reg.len(),
    );
}

} // verus!
