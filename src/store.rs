//! The record store: questions and answers, each kept as a sequence of
//! entries in insertion order with no key twice.

use vstd::prelude::*;

use crate::answer::{Answer, AnswerId, AnswerView};
use crate::error::Error;
use crate::question::{Content, Question, QuestionId, QuestionView};

verus! {

/// Whether an entry of `s` has key `k`.
pub open spec fn has_key<V>(s: Seq<(Seq<char>, V)>, k: Seq<char>) -> bool {
    exists|i: int| 0 <= i < s.len() && (#[trigger] s[i]).0 == k
}

/// No two entries of `s` share a key.
pub open spec fn keys_unique<V>(s: Seq<(Seq<char>, V)>) -> bool {
    forall|i: int, j: int|
        0 <= i < s.len() && 0 <= j < s.len() && i != j ==> (#[trigger] s[i]).0 != (#[trigger] s[j]).0
}

/// The position of the entry with key `k`.
pub open spec fn key_index<V>(s: Seq<(Seq<char>, V)>, k: Seq<char>) -> int {
    choose|i: int| 0 <= i < s.len() && (#[trigger] s[i]).0 == k
}

/// The value stored under `k`, if any.
pub open spec fn lookup<V>(s: Seq<(Seq<char>, V)>, k: Seq<char>) -> Option<V> {
    if has_key(s, k) {
        Some(s[key_index(s, k)].1)
    } else {
        None
    }
}

/// Stores `v` under `k`: in place of the entry with that key, or as a new
/// last entry.
pub open spec fn put<V>(s: Seq<(Seq<char>, V)>, k: Seq<char>, v: V) -> Seq<(Seq<char>, V)> {
    if has_key(s, k) {
        s.update(key_index(s, k), (k, v))
    } else {
        s.push((k, v))
    }
}

/// The entries `seed` leaves when stored one after the other into an empty
/// sequence.
pub open spec fn seeded<V>(seed: Seq<(Seq<char>, V)>) -> Seq<(Seq<char>, V)>
    decreases seed.len(),
{
    if seed.len() == 0 {
        Seq::empty()
    } else {
        put(seeded(seed.drop_last()), seed.last().0, seed.last().1)
    }
}

/// The values of the entries, in order.
pub open spec fn values_of<V>(s: Seq<(Seq<char>, V)>) -> Seq<V> {
    s.map_values(|e: (Seq<char>, V)| e.1)
}

/// The views of a list of questions.
pub open spec fn question_views(v: Seq<Question>) -> Seq<QuestionView> {
    v.map_values(|q: Question| q@)
}

pub open spec fn question_entries(v: Seq<(QuestionId, Question)>) -> Seq<(Seq<char>, QuestionView)> {
    v.map_values(|e: (QuestionId, Question)| (e.0@, e.1@))
}

pub open spec fn answer_entries(v: Seq<(AnswerId, Answer)>) -> Seq<(Seq<char>, AnswerView)> {
    v.map_values(|e: (AnswerId, Answer)| (e.0@, e.1@))
}

/// Under unique keys, the entry with key `k` sits at `key_index`.
pub proof fn lemma_key_index<V>(s: Seq<(Seq<char>, V)>, k: Seq<char>, i: int)
    requires
        keys_unique(s),
        0 <= i < s.len(),
        s[i].0 == k,
    ensures
        has_key(s, k),
        key_index(s, k) == i,
{
    assert(has_key(s, k));
}

/// Storing keeps keys unique.
pub proof fn lemma_put_unique<V>(s: Seq<(Seq<char>, V)>, k: Seq<char>, v: V)
    requires
        keys_unique(s),
    ensures
        keys_unique(put(s, k, v)),
        has_key(put(s, k, v), k),
{
    if has_key(s, k) {
        let i = key_index(s, k);
        assert(put(s, k, v)[i] == (k, v));
    } else {
        let t = put(s, k, v);
        assert(t[s.len() as int] == (k, v));
        assert forall|i: int, j: int|
            0 <= i < t.len() && 0 <= j < t.len() && i != j implies (#[trigger] t[i]).0 != (
            #[trigger] t[j]).0 by {
            if i < s.len() && j == s.len() {
                assert(s[i] == t[i]);
            } else if j < s.len() && i == s.len() {
                assert(s[j] == t[j]);
            }
        }
    }
}

/// Taking out the entry at a position keeps keys unique.
pub proof fn lemma_remove_unique<V>(s: Seq<(Seq<char>, V)>, i: int)
    requires
        keys_unique(s),
        0 <= i < s.len(),
    ensures
        keys_unique(s.remove(i)),
{
    let t = s.remove(i);
    assert forall|a: int, b: int|
        0 <= a < t.len() && 0 <= b < t.len() && a != b implies (#[trigger] t[a]).0 != (
        #[trigger] t[b]).0 by {
        let a1 = if a < i {
            a
        } else {
            a + 1
        };
        let b1 = if b < i {
            b
        } else {
            b + 1
        };
        assert(t[a] == s[a1]);
        assert(t[b] == s[b1]);
    }
}

/// Storing twice under one key leaves what storing the second value alone
/// leaves: the last write wins, and a read gives the second value.
pub proof fn last_write_wins<V>(s: Seq<(Seq<char>, V)>, k: Seq<char>, v1: V, v2: V)
    requires
        keys_unique(s),
    ensures
        put(put(s, k, v1), k, v2) == put(s, k, v2),
        lookup(put(put(s, k, v1), k, v2), k) == Some(v2),
{
    lemma_put_unique(s, k, v1);
    lemma_put_unique(put(s, k, v1), k, v2);
    let t = put(s, k, v1);
    let i = if has_key(s, k) {
        key_index(s, k)
    } else {
        s.len() as int
    };
    assert(t[i] == (k, v1));
    lemma_key_index(t, k, i);
    assert(put(t, k, v2) =~= put(s, k, v2));
    let u = put(s, k, v2);
    assert(u[i] == (k, v2));
    lemma_key_index(u, k, i);
}

/// Taking out the entry with key `k` leaves every other key, and only those.
pub proof fn removal_takes_only_that_key<V>(s: Seq<(Seq<char>, V)>, k: Seq<char>, other: Seq<char>)
    requires
        keys_unique(s),
        has_key(s, k),
    ensures
        has_key(s.remove(key_index(s, k)), other) == (has_key(s, other) && other != k),
        s.remove(key_index(s, k)).len() == s.len() - 1,
{
    let i = key_index(s, k);
    let t = s.remove(i);
    if has_key(t, other) {
        let a = choose|a: int| 0 <= a < t.len() && (#[trigger] t[a]).0 == other;
        let a1 = if a < i {
            a
        } else {
            a + 1
        };
        assert(t[a] == s[a1]);
    }
    if has_key(s, other) && other != k {
        let b = choose|b: int| 0 <= b < s.len() && (#[trigger] s[b]).0 == other;
        if b < i {
            assert(t[b] == s[b]);
        } else {
            assert(t[b - 1] == s[b]);
        }
    }
}

/// The questions, in the order they were first stored.
pub struct QuestionTable {
    entries: Vec<(QuestionId, Question)>,
}

impl View for QuestionTable {
    type V = Seq<(Seq<char>, QuestionView)>;

    closed spec fn view(&self) -> Seq<(Seq<char>, QuestionView)> {
        question_entries(self.entries@)
    }
}

impl QuestionTable {
    pub open spec fn wf(&self) -> bool {
        keys_unique(self@)
    }

    pub fn new() -> (t: QuestionTable)
        ensures
            t.wf(),
            t@ == Seq::<(Seq<char>, QuestionView)>::empty(),
    {
        let t = QuestionTable { entries: Vec::new() };
        assert(t@ =~= Seq::<(Seq<char>, QuestionView)>::empty());
        t
    }

    /// Where the entry with key `id` sits.
    fn position(&self, id: &QuestionId) -> (r: Option<usize>)
        ensures
            match r {
                Some(i) => i < self@.len() && self@[i as int].0 == id@,
                None => !has_key(self@, id@),
            },
    {
        let mut i: usize = 0;
        while i < self.entries.len()
            invariant
                i <= self@.len(),
                self@.len() == self.entries@.len(),
                forall|j: int| 0 <= j < i ==> (#[trigger] self@[j]).0 != id@,
            decreases self.entries@.len() - i,
        {
            if self.entries[i].0.same(id) {
                return Some(i);
            }
            i = i + 1;
        }
        None
    }

    /// How many questions are stored.
    pub fn len(&self) -> (r: usize)
        ensures
            r == self@.len(),
    {
        self.entries.len()
    }

    /// Whether a question with this id is stored now.
    pub fn question_exists(&self, id: &QuestionId) -> (r: bool)
        ensures
            r == has_key(self@, id@),
    {
        self.position(id).is_some()
    }

    /// A snapshot of every question, in the table's order.
    pub fn list_questions(&self) -> (r: Vec<Question>)
        ensures
            question_views(r@) == values_of(self@),
    {
        self.slice(0, self.entries.len())
    }

    /// Copies of the questions at positions `[start, end)`.
    pub fn slice(&self, start: usize, end: usize) -> (r: Vec<Question>)
        requires
            start <= end <= self@.len(),
        ensures
            question_views(r@) == values_of(self@).subrange(start as int, end as int),
    {
        let mut r: Vec<Question> = Vec::new();
        let mut i: usize = start;
        while i < end
            invariant
                start <= i <= end <= self@.len(),
                self@.len() == self.entries@.len(),
                question_views(r@) == values_of(self@).subrange(start as int, i as int),
            decreases end - i,
        {
            let q = self.entries[i].1.clone();
            let ghost before = r@;
            r.push(q);
            proof {
                let vs = values_of(self@);
                assert(vs[i as int] == q@);
                let lhs = question_views(r@);
                let rhs = vs.subrange(start as int, i + 1);
                assert(question_views(before).len() == before.len());
                assert(before.len() == i - start);
                assert(r@ == before.push(q));
                assert forall|k: int| 0 <= k < lhs.len() implies lhs[k] == rhs[k] by {
                    if k < before.len() {
                        assert(r@[k] == before[k]);
                        assert(question_views(before)[k] == vs.subrange(
                            start as int,
                            i as int,
                        )[k]);
                    }
                }
                assert(lhs =~= rhs);
            }
            i = i + 1;
        }
        r
    }

    /// Stores a question under its id, in place of any question with that
    /// id. This never fails.
    pub fn create_question(&mut self, q: Question)
        requires
            old(self).wf(),
        ensures
            final(self).wf(),
            final(self)@ == put(old(self)@, q@.id, q@),
    {
        let key = q.id().clone();
        self.insert_question(key, q);
    }

    /// Stores a question under `id`, in place of any question with that id.
    pub fn insert_question(&mut self, id: QuestionId, q: Question)
        requires
            old(self).wf(),
        ensures
            final(self).wf(),
            final(self)@ == put(old(self)@, id@, q@),
    {
        proof {
            lemma_put_unique(old(self)@, id@, q@);
        }
        match self.position(&id) {
            Some(i) => {
                proof {
                    lemma_key_index(self@, id@, i as int);
                }
                self.entries.set(i, (id, q));
                assert(self@ =~= put(old(self)@, id@, q@));
            },
            None => {
                self.entries.push((id, q));
                assert(self@ =~= put(old(self)@, id@, q@));
            },
        }
    }

    /// Replaces the question stored under `id`. The key stays `id`; that
    /// `q` carries the same id is the caller's concern.
    pub fn update_question(&mut self, id: &QuestionId, q: Question) -> (r: Result<(), Error>)
        requires
            old(self).wf(),
        ensures
            final(self).wf(),
            match r {
                Ok(()) => has_key(old(self)@, id@) && final(self)@ == old(self)@.update(
                    key_index(old(self)@, id@),
                    (id@, q@),
                ),
                Err(e) => !has_key(old(self)@, id@) && e is QuestionNotFound && final(self)@
                    == old(self)@,
            },
    {
        match self.position(id) {
            Some(i) => {
                proof {
                    lemma_key_index(self@, id@, i as int);
                }
                self.entries.set(i, (id.clone(), q));
                assert(self@ =~= old(self)@.update(i as int, (id@, q@)));
                assert forall|a: int, b: int|
                    0 <= a < self@.len() && 0 <= b < self@.len() && a != b implies (
                    #[trigger] self@[a]).0 != (#[trigger] self@[b]).0 by {
                    assert(self@[a].0 == old(self)@[a].0);
                    assert(self@[b].0 == old(self)@[b].0);
                }
                Ok(())
            },
            None => Err(Error::QuestionNotFound),
        }
    }

    /// Takes out the question stored under `id`; the others keep their
    /// order.
    pub fn delete_question(&mut self, id: &QuestionId) -> (r: Result<(), Error>)
        requires
            old(self).wf(),
        ensures
            final(self).wf(),
            match r {
                Ok(()) => has_key(old(self)@, id@) && final(self)@ == old(self)@.remove(
                    key_index(old(self)@, id@),
                ),
                Err(e) => !has_key(old(self)@, id@) && e is QuestionNotFound && final(self)@
                    == old(self)@,
            },
    {
        match self.position(id) {
            Some(i) => {
                proof {
                    lemma_key_index(self@, id@, i as int);
                    lemma_remove_unique(self@, i as int);
                }
                self.entries.remove(i);
                assert(self@ =~= old(self)@.remove(i as int));
                Ok(())
            },
            None => Err(Error::QuestionNotFound),
        }
    }
}

/// Relies on `uuid::Uuid::new_v4` and the text form of `uuid::Uuid`: a
/// random token, of which nothing is promised here.
#[verifier::external_body]
fn mint_answer_token() -> (r: String) {
    uuid::Uuid::new_v4().to_string()
}

/// The answers, in the order they were first stored.
pub struct AnswerTable {
    entries: Vec<(AnswerId, Answer)>,
}

impl View for AnswerTable {
    type V = Seq<(Seq<char>, AnswerView)>;

    closed spec fn view(&self) -> Seq<(Seq<char>, AnswerView)> {
        answer_entries(self.entries@)
    }
}

/// The views of a list of answers.
pub open spec fn answer_views(v: Seq<Answer>) -> Seq<AnswerView> {
    v.map_values(|a: Answer| a@)
}

impl AnswerTable {
    pub open spec fn wf(&self) -> bool {
        keys_unique(self@)
    }

    pub fn new() -> (t: AnswerTable)
        ensures
            t.wf(),
            t@ == Seq::<(Seq<char>, AnswerView)>::empty(),
    {
        let t = AnswerTable { entries: Vec::new() };
        assert(t@ =~= Seq::<(Seq<char>, AnswerView)>::empty());
        t
    }

    /// Where the entry with key `id` sits.
    fn position(&self, id: &AnswerId) -> (r: Option<usize>)
        ensures
            match r {
                Some(i) => i < self@.len() && self@[i as int].0 == id@,
                None => !has_key(self@, id@),
            },
    {
        let mut i: usize = 0;
        while i < self.entries.len()
            invariant
                i <= self@.len(),
                self@.len() == self.entries@.len(),
                forall|j: int| 0 <= j < i ==> (#[trigger] self@[j]).0 != id@,
            decreases self.entries@.len() - i,
        {
            if self.entries[i].0.same(id) {
                return Some(i);
            }
            i = i + 1;
        }
        None
    }

    /// Whether an answer with this id is stored now.
    pub fn answer_exists(&self, id: &AnswerId) -> (r: bool)
        ensures
            r == has_key(self@, id@),
    {
        self.position(id).is_some()
    }

    /// A snapshot of every answer, in the table's order.
    pub fn list_answers(&self) -> (r: Vec<Answer>)
        ensures
            answer_views(r@) == values_of(self@),
    {
        let mut r: Vec<Answer> = Vec::new();
        let mut i: usize = 0;
        while i < self.entries.len()
            invariant
                i <= self@.len(),
                self@.len() == self.entries@.len(),
                answer_views(r@) == values_of(self@).subrange(0, i as int),
            decreases self.entries@.len() - i,
        {
            let a = self.entries[i].1.clone();
            let ghost before = r@;
            r.push(a);
            proof {
                let vs = values_of(self@);
                assert(vs[i as int] == a@);
                assert(answer_views(before) == vs.subrange(0, i as int));
                assert(answer_views(before).len() == before.len());
                assert(r@ == before.push(a));
                assert forall|k: int| 0 <= k < r@.len() implies answer_views(r@)[k] == vs.subrange(
                    0,
                    i + 1,
                )[k] by {
                    if k < before.len() {
                        assert(r@[k] == before[k]);
                        assert(answer_views(before)[k] == vs.subrange(0, i as int)[k]);
                    }
                }
                assert(answer_views(r@) =~= vs.subrange(0, i + 1));
            }
            i = i + 1;
        }
        assert(values_of(self@).subrange(0, self@.len() as int) =~= values_of(self@));
        r
    }

    /// Stores an answer under `id`, in place of any answer with that id.
    pub fn insert_answer(&mut self, id: AnswerId, a: Answer)
        requires
            old(self).wf(),
        ensures
            final(self).wf(),
            final(self)@ == put(old(self)@, id@, a@),
    {
        proof {
            lemma_put_unique(old(self)@, id@, a@);
        }
        match self.position(&id) {
            Some(i) => {
                proof {
                    lemma_key_index(self@, id@, i as int);
                }
                self.entries.set(i, (id, a));
                assert(self@ =~= put(old(self)@, id@, a@));
            },
            None => {
                self.entries.push((id, a));
                assert(self@ =~= put(old(self)@, id@, a@));
            },
        }
    }

    /// An id that no stored answer has: `token` itself where it is free,
    /// else `token` lengthened with `-` past the longest stored id.
    fn fresh_answer_id(&self, token: String) -> (r: AnswerId)
        ensures
            !has_key(self@, r@),
            !has_key(self@, token@) ==> r@ == token@,
    {
        let candidate = AnswerId(token);
        if !self.answer_exists(&candidate) {
            return candidate;
        }
        let mut longest: usize = 0;
        let mut i: usize = 0;
        while i < self.entries.len()
            invariant
                i <= self@.len(),
                self@.len() == self.entries@.len(),
                forall|j: int| 0 <= j < i ==> (#[trigger] self@[j]).0.len() <= longest,
            decreases self.entries@.len() - i,
        {
            let n = self.entries[i].0.0.as_str().unicode_len();
            if n > longest {
                longest = n;
            }
            i = i + 1;
        }
        let mut s = candidate.0;
        while s.as_str().unicode_len() <= longest
            decreases longest + 1 - s@.len(),
        {
            proof {
                reveal_strlit("-");
            }
            s.append("-");
        }
        let r = AnswerId(s);
        assert forall|j: int| 0 <= j < self@.len() implies (#[trigger] self@[j]).0 != r@ by {
            assert(self@[j].0.len() <= longest);
        }
        r
    }

    /// Stores a new answer to `question_id` under a freshly minted id, where
    /// the question was found to exist; else nothing changes.
    pub fn create_answer(&mut self, question_exists: bool, question_id: QuestionId, content: Content)
        -> (r: Result<Answer, Error>)
        requires
            old(self).wf(),
        ensures
            final(self).wf(),
            match r {
                Ok(a) => question_exists && a.question_id@ == question_id@ && a.content@
                    == content@ && !has_key(old(self)@, a.id@) && final(self)@ == old(self)@.push((a.id@, a@)),
                Err(e) => !question_exists && e is QuestionNotFound && final(self)@ == old(self)@,
            },
    {
        if !question_exists {
            return Err(Error::QuestionNotFound);
        }
        let token = mint_answer_token();
        let id = self.fresh_answer_id(token);
        let answer = Answer { id: id.clone(), question_id, content };
        proof {
            lemma_put_unique(self@, id@, answer@);
        }
        self.entries.push((id, answer.clone()));
        assert(self@ =~= old(self)@.push((answer.id@, answer@)));
        assert(self@ =~= put(old(self)@, answer.id@, answer@));
        Ok(answer)
    }
}

/// Both collections. Each is kept apart so that each can be guarded on its
/// own; nothing ties an answer to its question after it was created.
pub struct Store {
    pub questions: QuestionTable,
    pub answers: AnswerTable,
}

impl Store {
    pub open spec fn wf(&self) -> bool {
        self.questions.wf() && self.answers.wf()
    }

    /// A store holding the seed entries, each stored in turn under its key.
    pub fn new(questions: Vec<(QuestionId, Question)>, answers: Vec<(AnswerId, Answer)>) -> (s:
        Store)
        ensures
            s.wf(),
            s.questions@ == seeded(question_entries(questions@)),
            s.answers@ == seeded(answer_entries(answers@)),
    {
        let mut qt = QuestionTable::new();
        let mut i: usize = 0;
        while i < questions.len()
            invariant
                i <= questions@.len(),
                qt.wf(),
                qt@ == seeded(question_entries(questions@).subrange(0, i as int)),
            decreases questions@.len() - i,
        {
            let q = questions[i].1.clone();
            let mut key = questions[i].0.clone();
            proof {
                let seed = question_entries(questions@).subrange(0, i + 1);
                assert(seed.drop_last() =~= question_entries(questions@).subrange(0, i as int));
                assert(seed.last() == (key@, q@));
            }
            qt.insert_question(key, q);
            i = i + 1;
        }
        assert(question_entries(questions@).subrange(0, questions@.len() as int)
            =~= question_entries(questions@));
        let mut at = AnswerTable::new();
        let mut j: usize = 0;
        while j < answers.len()
            invariant
                j <= answers@.len(),
                at.wf(),
                at@ == seeded(answer_entries(answers@).subrange(0, j as int)),
            decreases answers@.len() - j,
        {
            let a = answers[j].1.clone();
            let key = answers[j].0.clone();
            proof {
                let seed = answer_entries(answers@).subrange(0, j + 1);
                assert(seed.drop_last() =~= answer_entries(answers@).subrange(0, j as int));
                assert(seed.last() == (key@, a@));
            }
            at.insert_answer(key, a);
            j = j + 1;
        }
        assert(answer_entries(answers@).subrange(0, answers@.len() as int) =~= answer_entries(
            answers@,
        ));
        Store { questions: qt, answers: at }
    }

    /// Attaches a new answer to a question. The existence check and the
    /// insertion each take one collection: a question removed between the
    /// two is not noticed.
    pub fn create_answer(&mut self, question_id: QuestionId, content: Content) -> (r: Result<
        Answer,
        Error,
    >)
        requires
            old(self).wf(),
        ensures
            final(self).wf(),
            final(self).questions@ == old(self).questions@,
            r is Ok <==> has_key(old(self).questions@, question_id@),
            match r {
                Ok(a) => a.question_id@ == question_id@ && a.content@ == content@ && !has_key(
                    old(self).answers@,
                    a.id@,
                ) && final(self).answers@ == old(self).answers@.push((a.id@, a@)),
                Err(e) => e is QuestionNotFound && final(self).answers@ == old(self).answers@,
            },
    {
        let exists = self.questions.question_exists(&question_id);
        self.answers.create_answer(exists, question_id, content)
    }
}

} // verus!
