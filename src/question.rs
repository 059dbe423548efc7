//! Question records and their identifier.

use vstd::prelude::*;

verus! {

/// Key of a question record: a non-empty text.
#[derive(Debug)]
pub struct QuestionId(String);

/// Title of a question.
#[derive(Debug)]
pub struct Title(String);

/// Free text of a question or of an answer.
#[derive(Debug)]
pub struct Content(pub String);

/// One label attached to a question.
#[derive(Debug)]
pub struct Tag(String);

/// A question record.
#[derive(Debug)]
pub struct Question {
    pub id: QuestionId,
    title: Title,
    content: Content,
    tags: Option<Vec<Tag>>,
}

/// What a question holds, as mathematical values.
pub struct QuestionView {
    pub id: Seq<char>,
    pub title: Seq<char>,
    pub content: Seq<char>,
    pub tags: Option<Seq<Seq<char>>>,
}

/// The identifier that a text denotes, if any: every non-empty text and
/// nothing else.
pub open spec fn question_id_of(s: Seq<char>) -> Option<Seq<char>> {
    if s.len() > 0 {
        Some(s)
    } else {
        None
    }
}

/// The texts of a list of tags.
pub open spec fn tag_texts(tags: Seq<Tag>) -> Seq<Seq<char>> {
    tags.map_values(|t: Tag| t@)
}

impl View for QuestionId {
    type V = Seq<char>;

    closed spec fn view(&self) -> Seq<char> {
        self.0@
    }
}

impl View for Title {
    type V = Seq<char>;

    closed spec fn view(&self) -> Seq<char> {
        self.0@
    }
}

impl View for Content {
    type V = Seq<char>;

    open spec fn view(&self) -> Seq<char> {
        self.0@
    }
}

impl View for Tag {
    type V = Seq<char>;

    closed spec fn view(&self) -> Seq<char> {
        self.0@
    }
}

impl View for Question {
    type V = QuestionView;

    closed spec fn view(&self) -> QuestionView {
        QuestionView {
            id: self.id@,
            title: self.title@,
            content: self.content@,
            tags: match self.tags {
                Some(t) => Some(tag_texts(t@)),
                None => None,
            },
        }
    }
}

impl QuestionId {
    /// The identifier of a text; `None` for the empty text.
    pub fn from_str(s: &str) -> (r: Option<QuestionId>)
        ensures
            r.is_some() == (s@.len() > 0),
            match r {
                Some(q) => question_id_of(s@) == Some(q@),
                None => question_id_of(s@) is None,
            },
    {
        if s.is_empty() {
            None
        } else {
            Some(QuestionId(s.to_owned()))
        }
    }

    /// The text of the identifier.
    pub fn as_str(&self) -> (r: &str)
        ensures
            r@ == self@,
    {
        self.0.as_str()
    }

    /// Whether two identifiers are the same text.
    pub fn same(&self, other: &QuestionId) -> (r: bool)
        ensures
            r == (self@ == other@),
    {
        self.0 == other.0
    }
}

/// A text read back from an identifier built from it is the text itself;
/// the empty text builds no identifier.
pub proof fn question_id_round_trip(s: Seq<char>)
    ensures
        s.len() > 0 ==> question_id_of(s) == Some(s),
        s.len() == 0 ==> question_id_of(s) is None,
{
}

impl Clone for QuestionId {
    fn clone(&self) -> (r: Self)
        ensures
            r == *self,
    {
        QuestionId(self.0.clone())
    }
}

impl Title {
    pub fn new(s: String) -> (r: Title)
        ensures
            r@ == s@,
    {
        Title(s)
    }

    pub fn as_str(&self) -> (r: &str)
        ensures
            r@ == self@,
    {
        self.0.as_str()
    }
}

impl Clone for Title {
    fn clone(&self) -> (r: Self)
        ensures
            r == *self,
    {
        Title(self.0.clone())
    }
}

impl Clone for Content {
    fn clone(&self) -> (r: Self)
        ensures
            r == *self,
    {
        Content(self.0.clone())
    }
}

impl Tag {
    pub fn new(s: String) -> (r: Tag)
        ensures
            r@ == s@,
    {
        Tag(s)
    }

    pub fn as_str(&self) -> (r: &str)
        ensures
            r@ == self@,
    {
        self.0.as_str()
    }
}

impl Tag {
    /// The tag as shown to readers: its text after a `#`.
    pub fn to_text(&self) -> (r: String)
        ensures
            r@ == "#"@ + self@,
    {
        let mut r = String::from_str("#");
        r.append(self.0.as_str());
        r
    }
}

impl Clone for Tag {
    fn clone(&self) -> (r: Self)
        ensures
            r == *self,
    {
        Tag(self.0.clone())
    }
}

/// A copy of a list of tags.
fn copy_tags(tags: &Vec<Tag>) -> (r: Vec<Tag>)
    ensures
        r@ == tags@,
{
    let mut r: Vec<Tag> = Vec::new();
    let mut i: usize = 0;
    while i < tags.len()
        invariant
            i <= tags@.len(),
            r@ == tags@.subrange(0, i as int),
        decreases tags@.len() - i,
    {
        r.push(tags[i].clone());
        i = i + 1;
    }
    assert(r@ =~= tags@);
    r
}

impl Question {
    pub fn new(id: QuestionId, title: Title, content: Content, tags: Option<Vec<Tag>>) -> (r:
        Question)
        ensures
            r@.id == id@,
            r@.title == title@,
            r@.content == content@,
            r@.tags == match tags {
                Some(t) => Some(tag_texts(t@)),
                None => None::<Seq<Seq<char>>>,
            },
    {
        Question { id, title, content, tags }
    }

    pub fn id(&self) -> (r: &QuestionId)
        ensures
            r@ == self@.id,
    {
        &self.id
    }

    pub fn title(&self) -> (r: &Title)
        ensures
            r@ == self@.title,
    {
        &self.title
    }

    pub fn content(&self) -> (r: &Content)
        ensures
            r@ == self@.content,
    {
        &self.content
    }

    pub fn tags(&self) -> (r: &Option<Vec<Tag>>)
        ensures
            self@.tags == match r {
                Some(t) => Some(tag_texts(t@)),
                None => None::<Seq<Seq<char>>>,
            },
    {
        &self.tags
    }
}

impl Clone for Question {
    fn clone(&self) -> (r: Self)
        ensures
            r@ == self@,
    {
        let tags = match &self.tags {
            Some(t) => Some(copy_tags(t)),
            None => None,
        };
        Question {
            id: self.id.clone(),
            title: self.title.clone(),
            content: self.content.clone(),
            tags,
        }
    }
}

} // verus!
