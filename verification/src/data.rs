//! Dictionary entry data: definitions, meanings and thesaurus entries, each
//! with a mathematical view, plus the uniform message representation that
//! stands in for a real entry when a lookup fails.

use vstd::prelude::*;

verus! {

/// One sense of a word. Every attribute may be absent, because the upstream
/// source may omit it; absence degrades to an empty display, never an error.
#[derive(Clone, Debug)]
pub struct Definition {
    pub definition: Option<String>,
    pub example: Option<String>,
    pub synonyms: Option<Vec<String>>,
    pub antonyms: Option<Vec<String>>,
}

/// The senses a word has under one part of speech.
#[derive(Clone, Debug)]
pub struct Meaning {
    pub part_of_speech: Option<String>,
    pub definitions: Option<Vec<Definition>>,
}

/// One word's dictionary record, or a synthetic stand-in carrying a status
/// message. A synthetic entry has `meanings == None` and the message in
/// `word`, so every lookup outcome has the same shape and downstream code
/// never branches on success against failure.
#[derive(Clone, Debug)]
pub struct Thesaurus {
    pub word: Option<String>,
    pub origin: Option<String>,
    pub meanings: Option<Vec<Meaning>>,
}

/// The mathematical value of a `Definition`.
pub ghost struct DefinitionView {
    pub definition: Option<Seq<char>>,
    pub example: Option<Seq<char>>,
    pub synonyms: Option<Seq<Seq<char>>>,
    pub antonyms: Option<Seq<Seq<char>>>,
}

/// The mathematical value of a `Meaning`.
pub ghost struct MeaningView {
    pub part_of_speech: Option<Seq<char>>,
    pub definitions: Option<Seq<DefinitionView>>,
}

/// The mathematical value of a `Thesaurus` entry.
pub ghost struct ThesaurusView {
    pub word: Option<Seq<char>>,
    pub origin: Option<Seq<char>>,
    pub meanings: Option<Seq<MeaningView>>,
}

impl View for Definition {
    type V = DefinitionView;

    open spec fn view(&self) -> DefinitionView {
        DefinitionView {
            definition: self.definition.deep_view(),
            example: self.example.deep_view(),
            synonyms: self.synonyms.deep_view(),
            antonyms: self.antonyms.deep_view(),
        }
    }
}

impl DeepView for Definition {
    type V = DefinitionView;

    open spec fn deep_view(&self) -> DefinitionView {
        self.view()
    }
}

impl View for Meaning {
    type V = MeaningView;

    open spec fn view(&self) -> MeaningView {
        MeaningView {
            part_of_speech: self.part_of_speech.deep_view(),
            definitions: self.definitions.deep_view(),
        }
    }
}

impl DeepView for Meaning {
    type V = MeaningView;

    open spec fn deep_view(&self) -> MeaningView {
        self.view()
    }
}

impl View for Thesaurus {
    type V = ThesaurusView;

    open spec fn view(&self) -> ThesaurusView {
        ThesaurusView {
            word: self.word.deep_view(),
            origin: self.origin.deep_view(),
            meanings: self.meanings.deep_view(),
        }
    }
}

impl DeepView for Thesaurus {
    type V = ThesaurusView;

    open spec fn deep_view(&self) -> ThesaurusView {
        self.view()
    }
}

/// The part-of-speech title a meaning displays: empty when absent.
pub open spec fn pos_view(m: MeaningView) -> Seq<char> {
    match m.part_of_speech {
        Some(p) => p,
        None => Seq::empty(),
    }
}

/// The text a definition displays: empty when absent.
pub open spec fn def_text(d: DefinitionView) -> Seq<char> {
    match d.definition {
        Some(t) => t,
        None => Seq::empty(),
    }
}

/// The meanings of an entry: empty when absent.
pub open spec fn entry_meanings(t: ThesaurusView) -> Seq<MeaningView> {
    match t.meanings {
        Some(ms) => ms,
        None => Seq::empty(),
    }
}

/// The part-of-speech title of the meaning at `idx`: empty when out of range.
pub open spec fn pos_at(t: ThesaurusView, idx: int) -> Seq<char> {
    if 0 <= idx < entry_meanings(t).len() {
        pos_view(entry_meanings(t)[idx])
    } else {
        Seq::empty()
    }
}

/// The definitions of the meaning at `idx`: empty when absent or out of range.
pub open spec fn defs_at(t: ThesaurusView, idx: int) -> Seq<DefinitionView> {
    if 0 <= idx < entry_meanings(t).len() {
        match entry_meanings(t)[idx].definitions {
            Some(ds) => ds,
            None => Seq::empty(),
        }
    } else {
        Seq::empty()
    }
}

/// The part-of-speech titles the first entry of `ts` offers, in source
/// order: the cascading part-of-speech list is built from exactly these.
pub open spec fn pos_titles(ts: Seq<ThesaurusView>) -> Seq<Seq<char>> {
    if ts.len() > 0 {
        entry_meanings(ts[0]).map_values(|m: MeaningView| pos_view(m))
    } else {
        Seq::empty()
    }
}

/// The definition texts of the meaning at `idx` of the first entry of `ts`,
/// in source order: the cascading definition list is built from exactly
/// these.
pub open spec fn def_texts(ts: Seq<ThesaurusView>, idx: int) -> Seq<Seq<char>> {
    if ts.len() > 0 {
        defs_at(ts[0], idx).map_values(|d: DefinitionView| def_text(d))
    } else {
        Seq::empty()
    }
}

/// Whether `ts` is the uniform message representation: exactly one synthetic
/// entry without meanings, carrying `msg` as its word.
pub open spec fn is_message_result(ts: Seq<ThesaurusView>, msg: Seq<char>) -> bool {
    &&& ts.len() == 1
    &&& ts[0].word == Some(msg)
    &&& ts[0].origin is None
    &&& ts[0].meanings is None
}

/// An equal copy of an optional string.
fn clone_opt_string(o: &Option<String>) -> (r: Option<String>)
    ensures
        r == *o,
{
    match o {
        Some(s) => Some(s.clone()),
        None => None,
    }
}

/// A copy of a string vector with the same contents.
fn clone_string_vec(v: &Vec<String>) -> (r: Vec<String>)
    ensures
        r@ == v@,
{
    let mut r: Vec<String> = Vec::new();
    let mut i: usize = 0;
    while i < v.len()
        invariant
            i <= v@.len(),
            r@ =~= v@.subrange(0, i as int),
        decreases v@.len() - i,
    {
        r.push(v[i].clone());
        i = i + 1;
    }
    proof {
        assert(r@ =~= v@);
    }
    r
}

/// An equal copy of an optional string vector, up to the view of the strings.
fn clone_opt_string_vec(o: &Option<Vec<String>>) -> (r: Option<Vec<String>>)
    ensures
        r.deep_view() == o.deep_view(),
{
    match o {
        Some(v) => Some(clone_string_vec(v)),
        None => None,
    }
}

impl Definition {
    /// A copy of this definition with the same view.
    pub fn duplicate(&self) -> (r: Definition)
        ensures
            r@ == self@,
    {
        Definition {
            definition: clone_opt_string(&self.definition),
            example: clone_opt_string(&self.example),
            synonyms: clone_opt_string_vec(&self.synonyms),
            antonyms: clone_opt_string_vec(&self.antonyms),
        }
    }
}

/// A copy of a definition vector with the same view.
fn clone_definitions(v: &Vec<Definition>) -> (r: Vec<Definition>)
    ensures
        r.deep_view() == v.deep_view(),
{
    let mut r: Vec<Definition> = Vec::new();
    let mut i: usize = 0;
    while i < v.len()
        invariant
            i <= v@.len(),
            r@.len() == i,
            forall|j: int| 0 <= j < i ==> #[trigger] r@[j].deep_view() == v@[j].deep_view(),
        decreases v@.len() - i,
    {
        let d = v[i].duplicate();
        r.push(d);
        i = i + 1;
    }
    proof {
        assert(r.deep_view() =~= v.deep_view());
    }
    r
}

impl Thesaurus {
    /// The uniform representation of an error, empty or suggestion state: a
    /// single synthetic entry whose word carries the message and which has
    /// no meanings, the same shape as a real lookup result.
    pub fn inject_message(message: String) -> (r: Vec<Thesaurus>)
        ensures
            is_message_result(r.deep_view(), message@),
    {
        let entry = Thesaurus { word: Some(message), origin: None, meanings: None };
        let mut r: Vec<Thesaurus> = Vec::new();
        r.push(entry);
        proof {
            assert(r.deep_view() =~= seq![r@[0]@]);
        }
        r
    }

    /// The part-of-speech title and the definitions of the meaning at `idx`
    /// of entry `t`, substituting empty values for absent or out-of-range
    /// ones, so that no lookup outcome can fail structurally.
    pub fn unwrap_meanings_at(idx: usize, t: &Thesaurus) -> (r: (String, Vec<Definition>))
        ensures
            r.0@ == pos_at(t@, idx as int),
            r.1.deep_view() == defs_at(t@, idx as int),
    {
        match &t.meanings {
            Some(ms) => {
                if idx < ms.len() {
                    let pos = match &ms[idx].part_of_speech {
                        Some(p) => p.clone(),
                        None => String::new(),
                    };
                    let defs = match &ms[idx].definitions {
                        Some(ds) => clone_definitions(ds),
                        None => Vec::new(),
                    };
                    proof {
                        assert(entry_meanings(t@) =~= ms.deep_view());
                    }
                    (pos, defs)
                } else {
                    (String::new(), Vec::new())
                }
            }
            None => (String::new(), Vec::new()),
        }
    }
}

} // verus!
