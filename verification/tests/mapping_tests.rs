use antigravity_core::mapping::{MappingTable, MappingTables};
use antigravity_core::monitor::Protocol;

fn table(pairs: &[(&str, &str)]) -> MappingTable {
    let mut table = MappingTable::new();
    for (from, to) in pairs {
        table.insert(from.to_string(), to.to_string());
    }
    table
}

#[test]
fn a_mapped_name_is_translated() {
    let table = table(&[("gpt-4", "backend-large"), ("gpt-3.5", "backend-small")]);
    assert_eq!(table.map_model("gpt-4"), "backend-large");
    assert_eq!(table.map_model("gpt-3.5"), "backend-small");
    assert_eq!(table.get("gpt-4"), Some(&"backend-large".to_string()));
}

#[test]
fn an_unmapped_name_passes_through() {
    let table = table(&[("gpt-4", "backend-large")]);
    assert_eq!(table.map_model("gpt-4o"), "gpt-4o");
    assert_eq!(table.map_model("gpt-"), "gpt-");
    assert_eq!(table.map_model(""), "");
    assert_eq!(table.get("gpt-4o"), None);
    assert_eq!(MappingTable::new().map_model("anything"), "anything");
}

#[test]
fn names_are_matched_to_the_letter() {
    let table = table(&[("gpt-4", "backend-large")]);
    assert_eq!(table.map_model("GPT-4"), "GPT-4");
    assert_eq!(table.map_model(" gpt-4"), " gpt-4");
}

#[test]
fn insert_replaces_an_earlier_mapping() {
    let mut table = table(&[("a", "1"), ("b", "2")]);
    table.insert("a".to_string(), "3".to_string());
    assert_eq!(table.map_model("a"), "3");
    assert_eq!(table.map_model("b"), "2");
    table.insert("c".to_string(), "4".to_string());
    assert_eq!(table.map_model("c"), "4");
    assert_eq!(table.map_model("a"), "3");
}

#[test]
fn a_name_may_map_to_itself_or_to_another_key() {
    let table = table(&[("a", "b"), ("b", "c")]);
    // One translation step, not a chain.
    assert_eq!(table.map_model("a"), "b");
    assert_eq!(table.map_model("b"), "c");
}

fn tables() -> MappingTables {
    MappingTables {
        anthropic: table(&[("chat-3", "backend-chat3"), ("shared", "from-anthropic")]),
        openai: table(&[("gpt-4", "backend-g4"), ("shared", "from-openai")]),
        custom: table(&[("mine", "backend-mine"), ("gpt-4", "custom-g4")]),
    }
}

#[test]
fn each_protocol_uses_its_own_table() {
    let tables = tables();
    assert_eq!(tables.resolve_model(Protocol::Anthropic, "chat-3"), "backend-chat3");
    assert_eq!(tables.resolve_model(Protocol::OpenAi, "chat-3"), "chat-3");
    assert_eq!(tables.resolve_model(Protocol::Anthropic, "shared"), "from-anthropic");
    assert_eq!(tables.resolve_model(Protocol::OpenAi, "shared"), "from-openai");
    assert_eq!(tables.resolve_model(Protocol::Gemini, "shared"), "shared");
    assert_eq!(tables.resolve_model(Protocol::Zai, "chat-3"), "chat-3");
}

#[test]
fn a_custom_mapping_wins() {
    let tables = tables();
    assert_eq!(tables.resolve_model(Protocol::OpenAi, "gpt-4"), "custom-g4");
    assert_eq!(tables.resolve_model(Protocol::Gemini, "mine"), "backend-mine");
    assert_eq!(tables.resolve_model(Protocol::Anthropic, "mine"), "backend-mine");
}

#[test]
fn an_unknown_name_passes_through_every_protocol() {
    let tables = tables();
    for protocol in [Protocol::OpenAi, Protocol::Anthropic, Protocol::Gemini, Protocol::Zai] {
        assert_eq!(tables.resolve_model(protocol, "unknown-model"), "unknown-model");
    }
}
