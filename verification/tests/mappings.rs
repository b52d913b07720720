use elastic_pool::mapping::{
    DefaultStringMapping, ElasticCompletionFieldMapping, ElasticCompletionFieldMappingVisitor,
    ElasticKeywordFieldMapping, ElasticStringField, ElasticTokenCountFieldMapping,
    ElasticTokenCountFieldMappingVisitor, IndexAnalysis, IndexOptions, MappingEntry,
};

#[test]
fn default_string_mapping_has_one_keyword_sub_field() {
    let fields = DefaultStringMapping::fields().expect("the default mapping names sub fields");
    assert_eq!(fields.len(), 1);
    assert_eq!(fields[0].name, "keyword");
    assert_eq!(
        fields[0].field,
        ElasticStringField::Keyword(ElasticKeywordFieldMapping { ignore_above: Some(256) })
    );
}

#[test]
fn index_options_wire_names() {
    assert_eq!("docs", IndexOptions::Docs.wire_name());
    assert_eq!("freqs", IndexOptions::Freqs.wire_name());
    assert_eq!("positions", IndexOptions::Positions.wire_name());
    assert_eq!("offsets", IndexOptions::Offsets.wire_name());
}

#[test]
fn index_analysis_wire_names() {
    assert_eq!("analyzed", IndexAnalysis::Analyzed.wire_name());
    assert_eq!("not_analyzed", IndexAnalysis::NotAnalyzed.wire_name());
    assert_eq!("no", IndexAnalysis::No.wire_name());
}

#[test]
fn empty_completion_mapping_emits_only_its_kind() {
    let mapping = ElasticCompletionFieldMapping::default();
    let visitor = ElasticCompletionFieldMappingVisitor::new(&mapping);
    assert_eq!(visitor.visit(), vec![MappingEntry::CompletionKind]);
}

#[test]
fn completion_mapping_emits_set_fields_in_order() {
    let mapping = ElasticCompletionFieldMapping {
        analyzer: Some("standard"),
        search_analyzer: None,
        payloads: Some(true),
        preserve_separators: None,
        preserve_position_increments: Some(false),
        max_input_length: Some(50),
    };
    let visitor = ElasticCompletionFieldMappingVisitor::new(&mapping);
    assert_eq!(
        visitor.visit(),
        vec![
            MappingEntry::CompletionKind,
            MappingEntry::Analyzer("standard"),
            MappingEntry::Payloads(true),
            MappingEntry::PreservePositionIncrements(false),
            MappingEntry::MaxInputLength(50),
        ]
    );
}

#[test]
fn token_count_mapping_emits_set_fields_in_order() {
    let mapping = ElasticTokenCountFieldMapping {
        analyzer: Some("standard"),
        doc_values: Some(true),
        index: Some(IndexAnalysis::NotAnalyzed),
        include_in_all: Some(false),
        precision_step: Some(32),
        store: Some(true),
    };
    let visitor = ElasticTokenCountFieldMappingVisitor::new(&mapping);
    assert_eq!(
        visitor.visit(),
        vec![
            MappingEntry::TokenCountKind,
            MappingEntry::Analyzer("standard"),
            MappingEntry::DocValues(true),
            MappingEntry::Index(IndexAnalysis::NotAnalyzed),
            MappingEntry::IncludeInAll(false),
            MappingEntry::PrecisionStep(32),
            MappingEntry::Store(true),
        ]
    );
}

#[test]
fn empty_token_count_mapping_emits_only_its_kind() {
    let mapping = ElasticTokenCountFieldMapping::default();
    let visitor = ElasticTokenCountFieldMappingVisitor::new(&mapping);
    assert_eq!(visitor.visit(), vec![MappingEntry::TokenCountKind]);
}

#[test]
fn string_field_dispatches_to_the_wrapped_mapping() {
    let keyword = ElasticStringField::Keyword(ElasticKeywordFieldMapping { ignore_above: Some(256) });
    assert_eq!(
        keyword.entries(),
        vec![MappingEntry::KeywordKind, MappingEntry::IgnoreAbove(256)]
    );

    let completion = ElasticStringField::Completion(ElasticCompletionFieldMapping {
        analyzer: None,
        search_analyzer: Some("simple"),
        payloads: None,
        preserve_separators: None,
        preserve_position_increments: None,
        max_input_length: None,
    });
    assert_eq!(
        completion.entries(),
        vec![MappingEntry::CompletionKind, MappingEntry::SearchAnalyzer("simple")]
    );

    let token_count = ElasticStringField::TokenCount(ElasticTokenCountFieldMapping::default());
    assert_eq!(token_count.entries(), vec![MappingEntry::TokenCountKind]);
}
