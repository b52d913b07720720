//! Mapping descriptors for the `string` field types.
//!
//! A mapping is serialized on the wire as an object: a `type` entry first,
//! then one entry per field that is set, in declaration order.  That entry
//! sequence is computed here, exactly; rendering it into any particular wire
//! encoding is left to the caller.

use vstd::prelude::*;

verus! {

/// How a string field is indexed for search.
#[derive(Clone, Copy, Debug, PartialEq, Eq, Structural)]
pub enum IndexAnalysis {
    /// The field is analyzed before indexing.
    Analyzed,
    /// The field is indexed as a single term.
    NotAnalyzed,
    /// The field is not indexed at all.
    No,
}

impl IndexAnalysis {
    /// The value this option carries on the wire.
    pub fn wire_name(&self) -> (r: &'static str)
        ensures
            *self is Analyzed ==> r@ == "analyzed"@,
            *self is NotAnalyzed ==> r@ == "not_analyzed"@,
            *self is No ==> r@ == "no"@,
    {
        match *self {
            IndexAnalysis::Analyzed => "analyzed",
            IndexAnalysis::NotAnalyzed => "not_analyzed",
            IndexAnalysis::No => "no",
        }
    }
}

/// The `index_options` parameter: what information the inverted index keeps
/// for search and highlighting.
#[derive(Clone, Copy, Debug, PartialEq, Eq, Structural)]
pub enum IndexOptions {
    /// Only the doc number is indexed.
    Docs,
    /// Doc number and term frequencies are indexed.
    Freqs,
    /// Doc number, term frequencies, and term positions are indexed.
    Positions,
    /// Doc number, term frequencies, positions, and start and end character
    /// offsets are indexed.
    Offsets,
}

impl IndexOptions {
    /// The value this option carries on the wire.
    pub fn wire_name(&self) -> (r: &'static str)
        ensures
            *self is Docs ==> r@ == "docs"@,
            *self is Freqs ==> r@ == "freqs"@,
            *self is Positions ==> r@ == "positions"@,
            *self is Offsets ==> r@ == "offsets"@,
    {
        match *self {
            IndexOptions::Docs => "docs",
            IndexOptions::Freqs => "freqs",
            IndexOptions::Positions => "positions",
            IndexOptions::Offsets => "offsets",
        }
    }
}

/// One entry of a serialized mapping object: the leading `type` tag of each
/// mapping kind, or one named field with its value.
#[derive(Clone, Debug, PartialEq, Eq)]
pub enum MappingEntry {
    /// `"type": "token_count"`.
    TokenCountKind,
    /// `"type": "completion"`.
    CompletionKind,
    /// `"type": "keyword"`.
    KeywordKind,
    /// `"type": "text"`.
    TextKind,
    /// `"analyzer"`.
    Analyzer(&'static str),
    /// `"search_analyzer"`.
    SearchAnalyzer(&'static str),
    /// `"payloads"`.
    Payloads(bool),
    /// `"preserve_separators"`.
    PreserveSeparators(bool),
    /// `"preserve_position_increments"`.
    PreservePositionIncrements(bool),
    /// `"max_input_length"`.
    MaxInputLength(u32),
    /// `"ignore_above"`.
    IgnoreAbove(u32),
    /// `"doc_values"`.
    DocValues(bool),
    /// `"index"`.
    Index(IndexAnalysis),
    /// `"include_in_all"`.
    IncludeInAll(bool),
    /// `"precision_step"`.
    PrecisionStep(u32),
    /// `"store"`.
    Store(bool),
}

/// A multi-field string mapping for a token count.
#[derive(Clone, Copy, Debug, Default, PartialEq, Eq)]
pub struct ElasticTokenCountFieldMapping {
    /// The analyzer used at index and search time.
    pub analyzer: Option<&'static str>,
    /// Whether the field is stored column-stride for sorting and
    /// aggregations.
    pub doc_values: Option<bool>,
    /// Whether and how the field is searchable.
    pub index: Option<IndexAnalysis>,
    /// Whether the field value is included in the catch-all field.
    pub include_in_all: Option<bool>,
    /// The number of extra terms indexed to speed up range queries.
    pub precision_step: Option<u32>,
    /// Whether the field value is stored and retrievable separately.
    pub store: Option<bool>,
}

impl ElasticTokenCountFieldMapping {
    /// The field entries this mapping serializes to, after its `type` tag:
    /// each field that is set, in declaration order.
    pub open spec fn spec_entries(self) -> Seq<MappingEntry> {
        (match self.analyzer {
            Some(a) => seq![MappingEntry::Analyzer(a)],
            None => seq![],
        }) + (match self.doc_values {
            Some(v) => seq![MappingEntry::DocValues(v)],
            None => seq![],
        }) + (match self.index {
            Some(v) => seq![MappingEntry::Index(v)],
            None => seq![],
        }) + (match self.include_in_all {
            Some(v) => seq![MappingEntry::IncludeInAll(v)],
            None => seq![],
        }) + (match self.precision_step {
            Some(v) => seq![MappingEntry::PrecisionStep(v)],
            None => seq![],
        }) + (match self.store {
            Some(v) => seq![MappingEntry::Store(v)],
            None => seq![],
        })
    }
}

/// Walks an [`ElasticTokenCountFieldMapping`] and emits its serialized
/// entries.
#[derive(Debug)]
pub struct ElasticTokenCountFieldMappingVisitor<'a> {
    data: &'a ElasticTokenCountFieldMapping,
}

impl<'a> ElasticTokenCountFieldMappingVisitor<'a> {
    /// The mapping this visitor walks.
    pub closed spec fn mapping(self) -> ElasticTokenCountFieldMapping {
        *self.data
    }

    /// Creates a visitor over `field`.
    pub fn new(field: &'a ElasticTokenCountFieldMapping) -> (r: Self)
        ensures
            r.mapping() == *field,
    {
        ElasticTokenCountFieldMappingVisitor { data: field }
    }

    /// Emits the mapping's entries: the `type` tag first, then each field
    /// that is set, in declaration order.
    #[verifier::rlimit(60)]
    pub fn visit(&self) -> (r: Vec<MappingEntry>)
        ensures
            r@ == seq![MappingEntry::TokenCountKind] + self.mapping().spec_entries(),
    {
        let mut out: Vec<MappingEntry> = Vec::new();
        out.push(MappingEntry::TokenCountKind);
        if let Some(a) = self.data.analyzer {
            out.push(MappingEntry::Analyzer(a));
        }
        if let Some(v) = self.data.doc_values {
            out.push(MappingEntry::DocValues(v));
        }
        if let Some(v) = self.data.index {
            out.push(MappingEntry::Index(v));
        }
        if let Some(v) = self.data.include_in_all {
            out.push(MappingEntry::IncludeInAll(v));
        }
        if let Some(v) = self.data.precision_step {
            out.push(MappingEntry::PrecisionStep(v));
        }
        if let Some(v) = self.data.store {
            out.push(MappingEntry::Store(v));
        }
        proof {
            assert(out@ =~= seq![MappingEntry::TokenCountKind] + self.mapping().spec_entries());
        }
        out
    }
}

/// A multi-field string mapping for a completion suggester.
#[derive(Clone, Copy, Debug, Default, PartialEq, Eq)]
pub struct ElasticCompletionFieldMapping {
    /// The analyzer used at index and search time.
    pub analyzer: Option<&'static str>,
    /// The search analyzer; defaults to the value of `analyzer`.
    pub search_analyzer: Option<&'static str>,
    /// Whether payloads are stored.
    pub payloads: Option<bool>,
    /// Whether separators are preserved when suggesting.
    pub preserve_separators: Option<bool>,
    /// Whether position increments are enabled.
    pub preserve_position_increments: Option<bool>,
    /// The length limit of a single input.
    pub max_input_length: Option<u32>,
}

impl ElasticCompletionFieldMapping {
    /// The field entries this mapping serializes to, after its `type` tag:
    /// each field that is set, in declaration order.
    pub open spec fn spec_entries(self) -> Seq<MappingEntry> {
        (match self.analyzer {
            Some(a) => seq![MappingEntry::Analyzer(a)],
            None => seq![],
        }) + (match self.search_analyzer {
            Some(a) => seq![MappingEntry::SearchAnalyzer(a)],
            None => seq![],
        }) + (match self.payloads {
            Some(v) => seq![MappingEntry::Payloads(v)],
            None => seq![],
        }) + (match self.preserve_separators {
            Some(v) => seq![MappingEntry::PreserveSeparators(v)],
            None => seq![],
        }) + (match self.preserve_position_increments {
            Some(v) => seq![MappingEntry::PreservePositionIncrements(v)],
            None => seq![],
        }) + (match self.max_input_length {
            Some(v) => seq![MappingEntry::MaxInputLength(v)],
            None => seq![],
        })
    }
}

/// Walks an [`ElasticCompletionFieldMapping`] and emits its serialized
/// entries.
#[derive(Debug)]
pub struct ElasticCompletionFieldMappingVisitor<'a> {
    data: &'a ElasticCompletionFieldMapping,
}

impl<'a> ElasticCompletionFieldMappingVisitor<'a> {
    /// The mapping this visitor walks.
    pub closed spec fn mapping(self) -> ElasticCompletionFieldMapping {
        *self.data
    }

    /// Creates a visitor over `field`.
    pub fn new(field: &'a ElasticCompletionFieldMapping) -> (r: Self)
        ensures
            r.mapping() == *field,
    {
        ElasticCompletionFieldMappingVisitor { data: field }
    }

    /// Emits the mapping's entries: the `type` tag first, then each field
    /// that is set, in declaration order.
    #[verifier::rlimit(60)]
    pub fn visit(&self) -> (r: Vec<MappingEntry>)
        ensures
            r@ == seq![MappingEntry::CompletionKind] + self.mapping().spec_entries(),
    {
        let mut out: Vec<MappingEntry> = Vec::new();
        out.push(MappingEntry::CompletionKind);
        if let Some(a) = self.data.analyzer {
            out.push(MappingEntry::Analyzer(a));
        }
        if let Some(a) = self.data.search_analyzer {
            out.push(MappingEntry::SearchAnalyzer(a));
        }
        if let Some(v) = self.data.payloads {
            out.push(MappingEntry::Payloads(v));
        }
        if let Some(v) = self.data.preserve_separators {
            out.push(MappingEntry::PreserveSeparators(v));
        }
        if let Some(v) = self.data.preserve_position_increments {
            out.push(MappingEntry::PreservePositionIncrements(v));
        }
        if let Some(v) = self.data.max_input_length {
            out.push(MappingEntry::MaxInputLength(v));
        }
        proof {
            assert(out@ =~= seq![MappingEntry::CompletionKind] + self.mapping().spec_entries());
        }
        out
    }
}

/// A `keyword` sub-field mapping: the parts of it this crate's mappings set.
#[derive(Clone, Copy, Debug, Default, PartialEq, Eq, Structural)]
pub struct ElasticKeywordFieldMapping {
    /// Strings longer than this are not indexed.
    pub ignore_above: Option<u32>,
}

impl ElasticKeywordFieldMapping {
    /// The field entries this mapping serializes to, after its `type` tag.
    pub open spec fn spec_entries(self) -> Seq<MappingEntry> {
        match self.ignore_above {
            Some(v) => seq![MappingEntry::IgnoreAbove(v)],
            None => seq![],
        }
    }
}

/// A `text` sub-field mapping: the parts of it this crate's mappings set.
#[derive(Clone, Copy, Debug, Default, PartialEq, Eq)]
pub struct ElasticTextFieldMapping {
    /// The analyzer used at index and search time.
    pub analyzer: Option<&'static str>,
}

impl ElasticTextFieldMapping {
    /// The field entries this mapping serializes to, after its `type` tag.
    pub open spec fn spec_entries(self) -> Seq<MappingEntry> {
        match self.analyzer {
            Some(a) => seq![MappingEntry::Analyzer(a)],
            None => seq![],
        }
    }
}

/// A string sub-field type: one of the alternative representations a string
/// field can be indexed under.
#[derive(Clone, Copy, Debug, PartialEq, Eq)]
pub enum ElasticStringField {
    /// A token-count sub field.
    TokenCount(ElasticTokenCountFieldMapping),
    /// A completion-suggester sub field.
    Completion(ElasticCompletionFieldMapping),
    /// A keyword sub field.
    Keyword(ElasticKeywordFieldMapping),
    /// A text sub field.
    Text(ElasticTextFieldMapping),
}

impl ElasticStringField {
    /// The entries the wrapped mapping serializes to, tag included.
    pub open spec fn spec_entries(self) -> Seq<MappingEntry> {
        match self {
            ElasticStringField::TokenCount(m) => seq![MappingEntry::TokenCountKind] + m.spec_entries(),
            ElasticStringField::Completion(m) => seq![MappingEntry::CompletionKind] + m.spec_entries(),
            ElasticStringField::Keyword(m) => seq![MappingEntry::KeywordKind] + m.spec_entries(),
            ElasticStringField::Text(m) => seq![MappingEntry::TextKind] + m.spec_entries(),
        }
    }

    /// Emits the wrapped mapping's entries by handing off to the mapping the
    /// variant holds.
    pub fn entries(&self) -> (r: Vec<MappingEntry>)
        ensures
            r@ == self.spec_entries(),
    {
        match self {
            ElasticStringField::TokenCount(m) => ElasticTokenCountFieldMappingVisitor::new(m).visit(),
            ElasticStringField::Completion(m) => ElasticCompletionFieldMappingVisitor::new(m).visit(),
            ElasticStringField::Keyword(m) => {
                let mut out: Vec<MappingEntry> = Vec::new();
                out.push(MappingEntry::KeywordKind);
                if let Some(v) = m.ignore_above {
                    out.push(MappingEntry::IgnoreAbove(v));
                }
                proof {
                    assert(out@ =~= self.spec_entries());
                }
                out
            },
            ElasticStringField::Text(m) => {
                let mut out: Vec<MappingEntry> = Vec::new();
                out.push(MappingEntry::TextKind);
                if let Some(a) = m.analyzer {
                    out.push(MappingEntry::Analyzer(a));
                }
                proof {
                    assert(out@ =~= self.spec_entries());
                }
                out
            },
        }
    }
}

/// A sub field under the name it is mapped by.
#[derive(Clone, Copy, Debug, PartialEq, Eq)]
pub struct NamedField {
    /// The sub-field name.
    pub name: &'static str,
    /// The sub-field mapping.
    pub field: ElasticStringField,
}

/// The default mapping for `String`: a text field with one `keyword` sub
/// field that indexes strings up to 256 characters as a single term.
#[derive(Clone, Copy, Debug, Default, PartialEq, Eq, Structural)]
pub struct DefaultStringMapping;

impl DefaultStringMapping {
    /// The sub fields of the default string mapping: exactly one, named
    /// `keyword`, a keyword mapping that ignores strings longer than 256
    /// characters.  Sub-field names are unique.
    pub fn fields() -> (r: Option<Vec<NamedField>>)
        ensures
            r matches Some(v) && v@.len() == 1,
            r matches Some(v) ==> v@[0].name@ == "keyword"@
                && v@[0].field == ElasticStringField::Keyword(
                ElasticKeywordFieldMapping { ignore_above: Some(256u32) },
            ),
    {
        let mut fields: Vec<NamedField> = Vec::new();
        fields.push(NamedField {
            name: "keyword",
            field: ElasticStringField::Keyword(ElasticKeywordFieldMapping { ignore_above: Some(256) }),
        });
        Some(fields)
    }
}

} // verus!
