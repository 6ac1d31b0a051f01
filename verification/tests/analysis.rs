use pine_analysis::analysis::{
    analyze_with_settings, AnalysisResult, AnalysisSettings, DiagnosticCode, Severity, SymbolKind,
};
use pine_analysis::position::LineIndex;
use pine_analysis::syntax::{Field, NodeKind, SyntaxNode, SyntaxTree};

fn node(kind: NodeKind, start: usize, end: usize, parent: Option<usize>) -> SyntaxNode {
    SyntaxNode {
        kind,
        start,
        end,
        named: true,
        error: false,
        missing: false,
        parent,
        children: Vec::new(),
        fields: Vec::new(),
    }
}

fn attach(nodes: &mut Vec<SyntaxNode>, parent: usize, child: usize, field: Field) {
    nodes[parent].children.push(child);
    nodes[parent].fields.push(field);
}

fn root_only(text: &str) -> SyntaxTree {
    let n = text.chars().count();
    SyntaxTree { nodes: vec![node(NodeKind::Other, 0, n, None)] }
}

fn run(text: &str, tree: &SyntaxTree) -> AnalysisResult {
    let chars: Vec<char> = text.chars().collect();
    let index = LineIndex::new(&chars);
    analyze_with_settings(text, &index, tree, &AnalysisSettings::default())
}

fn messages(r: &AnalysisResult) -> Vec<String> {
    r.diagnostics.iter().map(|d| d.message.clone()).collect()
}

fn has_message(r: &AnalysisResult, msg: &str) -> bool {
    r.diagnostics.iter().any(|d| d.message == msg)
}

#[test]
fn missing_version_and_entry_point_are_reported() {
    let text = "x";
    let r = run(text, &root_only(text));
    let version = r
        .diagnostics
        .iter()
        .find(|d| d.message == "Missing //@version=6 directive")
        .expect("version warning");
    assert_eq!(version.severity, Severity::Warning);
    assert_eq!(version.code, DiagnosticCode::Validation);
    assert!(has_message(&r, "Missing indicator() or strategy() declaration"));
}

#[test]
fn version_directive_silences_the_warning() {
    let text = "//@version=6\n";
    let r = run(text, &root_only(text));
    assert!(!has_message(&r, "Missing //@version=6 directive"));
}

#[test]
fn syntax_errors_come_first() {
    let text = "//@version=6\n)";
    let mut nodes = vec![node(NodeKind::Other, 0, 14, None), node(NodeKind::Error, 13, 14, Some(0))];
    attach(&mut nodes, 0, 1, Field::Unnamed);
    let r = run(text, &SyntaxTree { nodes });
    assert_eq!(r.diagnostics[0].message, "Syntax error");
    assert_eq!(r.diagnostics[0].severity, Severity::Error);
    assert_eq!(r.diagnostics[0].code, DiagnosticCode::Syntax);
    assert_eq!(r.diagnostics[0].range.start.line, 1);
}

#[test]
fn builtin_values_are_defined_but_not_outlined() {
    let text = "//@version=6\n";
    let r = run(text, &root_only(text));
    let table = pine_analysis::builtins::Builtins::new();
    let values = table.values();
    assert!(r.definitions.len() >= values.len());
    for (k, (name, _)) in values.iter().enumerate() {
        assert_eq!(&r.definitions[k].name, name);
        assert!(r.definitions[k].is_builtin);
    }
    assert!(r.definitions.iter().any(|d| d.name == "close" && d.kind == SymbolKind::Builtin && d.is_builtin));
    assert!(r.document_symbols.is_empty());
    assert!(!messages(&r).iter().any(|m| m.starts_with("Unused builtin")));
}

#[test]
fn enum_declarations_are_collected() {
    let text = "//@version=6\nenum Color\n    red = \"Red\"\n    red = \"Again\"\n    blue = Blue\nindicator(\"x\")\n";
    let r = run(text, &root_only(text));
    assert_eq!(r.enums.len(), 1);
    assert_eq!(r.enums[0].0, "Color");
    assert_eq!(r.enums[0].1, vec!["red".to_string(), "blue".to_string()]);
    let def = r.definitions.iter().find(|d| d.name == "Color").expect("enum definition");
    assert_eq!(def.kind, SymbolKind::Type);
    assert_eq!(def.selection_range.start.line, 1);
    assert_eq!(def.selection_range.start.character, 5);
    assert_eq!(def.selection_range.end.character, 10);
    assert!(has_message(&r, "Duplicate enum member `red` in enum `Color`"));
    assert!(has_message(&r, "Previous enum member `red` defined here"));
    assert!(has_message(&r, "Invalid enum title for member `blue`"));
    assert!(has_message(&r, "Unused type `Color`"));
    assert!(has_message(&r, "Unused enum member `Color.red`"));
    assert!(has_message(&r, "Unused enum member `Color.blue`"));
    let outline = r.document_symbols.iter().find(|s| s.name == "Color").expect("outline entry");
    assert_eq!(outline.detail.as_deref(), Some("Color"));
}

#[test]
fn exported_enum_with_comment_title() {
    let text = "export export enum Side\n\tlong = \"Long\" // buy\n\n\tshort = 'Short'\nx\n";
    let r = run(text, &root_only(text));
    assert_eq!(r.enums.len(), 1);
    assert_eq!(r.enums[0].1, vec!["long".to_string(), "short".to_string()]);
    assert!(!messages(&r).iter().any(|m| m.starts_with("Invalid enum title")));
}

#[test]
fn enum_without_members_is_not_recorded() {
    let text = "enum Empty\nx = 1\n";
    let r = run(text, &root_only(text));
    assert!(r.enums.is_empty());
    assert!(r.definitions.iter().any(|d| d.name == "Empty" && d.kind == SymbolKind::Type));
}

#[test]
fn invalid_title_range_covers_the_title() {
    let text = "enum E\n  a = 12\n";
    let r = run(text, &root_only(text));
    let d = r
        .diagnostics
        .iter()
        .find(|d| d.message == "Invalid enum title for member `a`")
        .expect("title error");
    assert_eq!(d.severity, Severity::Error);
    assert_eq!(d.range.start.line, 1);
    assert_eq!(d.range.start.character, 6);
    assert_eq!(d.range.end.character, 8);
}

fn two_definitions(text: &str) -> SyntaxTree {
    // y = x
    // x = 1
    let n = text.chars().count();
    let mut nodes = vec![
        node(NodeKind::Other, 0, n, None),
        node(NodeKind::VariableDefinition, 0, 5, Some(0)),
        node(NodeKind::Identifier, 0, 1, Some(1)),
        node(NodeKind::Identifier, 4, 5, Some(1)),
        node(NodeKind::VariableDefinition, 6, 11, Some(0)),
        node(NodeKind::Identifier, 6, 7, Some(4)),
        node(NodeKind::Integer, 10, 11, Some(4)),
    ];
    attach(&mut nodes, 0, 1, Field::Unnamed);
    attach(&mut nodes, 1, 2, Field::Variable);
    attach(&mut nodes, 1, 3, Field::InitialValue);
    attach(&mut nodes, 0, 4, Field::Unnamed);
    attach(&mut nodes, 4, 5, Field::Variable);
    attach(&mut nodes, 4, 6, Field::InitialValue);
    SyntaxTree { nodes }
}

#[test]
fn use_before_definition_is_hinted() {
    let text = "y = x\nx = 1\n";
    let r = run(text, &two_definitions(text));
    let hint = r
        .diagnostics
        .iter()
        .position(|d| d.message == "Possible use before definition of `x`; definition appears later")
        .expect("hint");
    assert_eq!(r.diagnostics[hint].severity, Severity::Hint);
    assert_eq!(r.diagnostics[hint].code, DiagnosticCode::Logic);
    assert_eq!(r.diagnostics[hint + 1].message, "`x` defined here");
    assert_eq!(r.diagnostics[hint + 1].range.start.line, 1);
    assert!(has_message(&r, "Unused variable `y`"));
    assert!(has_message(&r, "Unused variable `x`"));
    let names: Vec<&str> = r.document_symbols.iter().map(|s| s.name.as_str()).collect();
    assert_eq!(names, vec!["y", "x"]);
    let reference = r.references.iter().find(|s| s.name == "x").expect("reference");
    assert!(reference.def_index.is_none());
}

#[test]
fn resolved_references_point_at_definitions() {
    // x = 1
    // y = x
    let text = "x = 1\ny = x\n";
    let n = text.chars().count();
    let mut nodes = vec![
        node(NodeKind::Other, 0, n, None),
        node(NodeKind::VariableDefinition, 0, 5, Some(0)),
        node(NodeKind::Identifier, 0, 1, Some(1)),
        node(NodeKind::Integer, 4, 5, Some(1)),
        node(NodeKind::VariableDefinition, 6, 11, Some(0)),
        node(NodeKind::Identifier, 6, 7, Some(4)),
        node(NodeKind::Identifier, 10, 11, Some(4)),
    ];
    attach(&mut nodes, 0, 1, Field::Unnamed);
    attach(&mut nodes, 1, 2, Field::Variable);
    attach(&mut nodes, 1, 3, Field::InitialValue);
    attach(&mut nodes, 0, 4, Field::Unnamed);
    attach(&mut nodes, 4, 5, Field::Variable);
    attach(&mut nodes, 4, 6, Field::InitialValue);
    let r = run(text, &SyntaxTree { nodes });
    let reference = r.references.iter().find(|s| s.name == "x").expect("reference");
    let d = reference.def_index.expect("resolved");
    assert_eq!(r.definitions[d].name, "x");
    assert!(!has_message(&r, "Unused variable `x`"));
    assert!(has_message(&r, "Unused variable `y`"));
    assert!(!messages(&r).iter().any(|m| m.starts_with("Possible use before definition")));
    for s in &r.references {
        if let Some(d) = s.def_index {
            assert!(d < r.definitions.len());
        }
    }
}

#[test]
fn redefinition_in_one_scope_is_a_duplicate() {
    let text = "enum A\n  a = \"x\"\nenum A\n  b = \"y\"\n";
    let r = run(text, &root_only(text));
    let i = r
        .diagnostics
        .iter()
        .position(|d| d.message == "Duplicate definition of `A`")
        .expect("duplicate");
    assert_eq!(r.diagnostics[i].severity, Severity::Warning);
    assert_eq!(r.diagnostics[i + 1].message, "Previous definition of `A`");
    assert_eq!(r.diagnostics[i + 1].range.start.line, 0);
    assert_eq!(r.enums.len(), 1);
    assert_eq!(r.enums[0].1, vec!["b".to_string()]);
}

#[test]
fn self_calling_function_is_reported_recursive() {
    let text = "f() => f()";
    let mut nodes = vec![
        node(NodeKind::Other, 0, 10, None),
        node(NodeKind::FunctionDeclarationStatement, 0, 10, Some(0)),
        node(NodeKind::Identifier, 0, 1, Some(1)),
        node(NodeKind::Call, 7, 10, Some(1)),
        node(NodeKind::Identifier, 7, 8, Some(3)),
    ];
    attach(&mut nodes, 0, 1, Field::Unnamed);
    attach(&mut nodes, 1, 2, Field::Function);
    attach(&mut nodes, 1, 3, Field::Body);
    attach(&mut nodes, 3, 4, Field::Function);
    let r = run(text, &SyntaxTree { nodes });
    assert!(has_message(&r, "Function `f` is recursive; ensure a base case to avoid infinite recursion"));
    assert!(!has_message(&r, "Unknown function `f`"));
}

#[test]
fn unknown_function_is_reported() {
    let text = "g()";
    let mut nodes = vec![
        node(NodeKind::Other, 0, 3, None),
        node(NodeKind::Call, 0, 3, Some(0)),
        node(NodeKind::Identifier, 0, 1, Some(1)),
    ];
    attach(&mut nodes, 0, 1, Field::Unnamed);
    attach(&mut nodes, 1, 2, Field::Function);
    let r = run(text, &SyntaxTree { nodes });
    assert!(has_message(&r, "Unknown function `g`"));
}

/// `if true` whose branch is a block holding one call, of the name that
/// starts at offset 12 and ends at `callee_end`.
fn if_with_call(text: &str, callee_end: usize) -> SyntaxTree {
    let n = text.chars().count();
    let mut nodes = vec![
        node(NodeKind::Other, 0, n, None),
        node(NodeKind::IfStatement, 0, n, Some(0)),
        node(NodeKind::True, 3, 7, Some(1)),
        node(NodeKind::Block, 12, n, Some(1)),
        node(NodeKind::Call, 12, n, Some(3)),
        node(NodeKind::Identifier, 12, callee_end, Some(4)),
    ];
    attach(&mut nodes, 0, 1, Field::Unnamed);
    attach(&mut nodes, 1, 2, Field::Condition);
    attach(&mut nodes, 1, 3, Field::Consequence);
    attach(&mut nodes, 3, 4, Field::Unnamed);
    attach(&mut nodes, 4, 5, Field::Function);
    SyntaxTree { nodes }
}

#[test]
fn calls_inside_an_if_branch_are_checked() {
    let text = "if true\n    g()";
    let r = run(text, &if_with_call(text, 13));
    assert!(has_message(&r, "Unknown function `g`"));
}

#[test]
fn indicator_call_inside_an_if_branch_counts() {
    let text = "if true\n    indicator()";
    let r = run(text, &if_with_call(text, 21));
    assert!(!has_message(&r, "Missing indicator() or strategy() declaration"));
    assert!(!has_message(&r, "Unknown function `indicator`"));
}

#[test]
fn indicator_call_satisfies_the_entry_point() {
    let text = "indicator(\"x\")";
    let mut nodes = vec![
        node(NodeKind::Other, 0, 14, None),
        node(NodeKind::Call, 0, 14, Some(0)),
        node(NodeKind::Identifier, 0, 9, Some(1)),
    ];
    attach(&mut nodes, 0, 1, Field::Unnamed);
    attach(&mut nodes, 1, 2, Field::Function);
    let r = run(text, &SyntaxTree { nodes });
    assert!(!has_message(&r, "Missing indicator() or strategy() declaration"));
    assert!(!has_message(&r, "Unknown function `indicator`"));
}

#[test]
fn tree_check_accepts_linked_tree() {
    let chars: Vec<char> = "x = 1".chars().collect();
    let mut nodes = vec![node(NodeKind::Other, 0, 5, None), node(NodeKind::Identifier, 0, 1, Some(0))];
    nodes[0].children.push(1);
    nodes[0].fields.push(Field::Variable);
    let tree = SyntaxTree { nodes };
    assert!(pine_analysis::analysis::eval::tree_is_ok(&tree, &chars));
}

#[test]
fn tree_check_rejects_broken_links() {
    let chars: Vec<char> = "x = 1".chars().collect();
    let mut nodes = vec![node(NodeKind::Other, 0, 5, None), node(NodeKind::Identifier, 0, 1, None)];
    nodes[0].children.push(1);
    nodes[0].fields.push(Field::Variable);
    let tree = SyntaxTree { nodes };
    assert!(!pine_analysis::analysis::eval::tree_is_ok(&tree, &chars));
    let past_end = SyntaxTree { nodes: vec![node(NodeKind::Other, 0, 9, None)] };
    assert!(!pine_analysis::analysis::eval::tree_is_ok(&past_end, &chars));
}

#[test]
fn settings_check_requires_positive_denominators() {
    let mut settings = AnalysisSettings::default();
    assert!(settings.is_valid());
    settings.commission_warn_threshold.den = 0;
    assert!(!settings.is_valid());
}

#[test]
fn builtin_function_list_is_the_groups_in_order() {
    let all = pine_analysis::builtins::functions::builtin_functions();
    let ta = pine_analysis::builtins::functions::ta::list();
    assert!(all.len() > ta.len());
    assert!(all.iter().any(|f| f.name == ta[0].name));
}
