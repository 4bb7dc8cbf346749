use import_scanner::scan_source;
use import_scanner::scan_source_rewrite;
use import_scanner::ImportDescriptor;
use import_scanner::ImportKind;
use import_scanner::RawItem;

fn bytes(s: &str) -> Vec<u8> {
    s.as_bytes().to_vec()
}

fn desc(specifier: &str, kind: ImportKind, line: usize, col: usize) -> ImportDescriptor {
    ImportDescriptor { specifier: specifier.to_string(), kind, col, line }
}

fn item_specifiers(items: &[RawItem]) -> Vec<Option<String>> {
    items
        .iter()
        .map(|it| match it {
            RawItem::Import { specifier, .. } => Some(specifier.clone()),
            RawItem::ExportNamed { specifier, .. } => specifier.clone(),
            RawItem::ExportAll { specifier, .. } => Some(specifier.clone()),
            RawItem::Other => None,
        })
        .collect()
}

#[test]
fn test_ok() {
    let url = "http://deno.cool/index.html";
    let source = r#"
import something from "../module_with_default_export.js";
import { something_else } from "ordinary_module";
import * as everything from "some_other_module.js";

import "same_line_1"; import "same_line_2";

import ""; // Empty specifier.

await everything();

import "after_top_level_await";

export * from "complete re-exported module";
export { that } from "partially re-exported module";

import "repeated_import";
import "repeated_import";

/* padding */ import _ from "at column 14";
"#;
    let expected = vec![
        desc("../module_with_default_export.js", ImportKind::Import, 2, 0),
        desc("ordinary_module", ImportKind::Import, 3, 0),
        desc("some_other_module.js", ImportKind::Import, 4, 0),
        desc("same_line_1", ImportKind::Import, 6, 0),
        desc("same_line_2", ImportKind::Import, 6, 22),
        desc("", ImportKind::Import, 8, 0),
        desc("after_top_level_await", ImportKind::Import, 12, 0),
        desc("complete re-exported module", ImportKind::Export, 14, 0),
        desc("partially re-exported module", ImportKind::Export, 15, 0),
        desc("repeated_import", ImportKind::Import, 17, 0),
        desc("repeated_import", ImportKind::Import, 18, 0),
        desc("at column 14", ImportKind::Import, 20, 14),
    ];
    let (descriptors, items) = scan_source_rewrite(&bytes(source), url).unwrap();
    assert_eq!(descriptors, expected);
    // No specifier starts with the prefix marker, so the rewrite leaves
    // every specifier as written.
    let specs = item_specifiers(&items);
    let reported: Vec<Option<String>> =
        expected.iter().map(|d| Some(d.specifier.clone())).collect();
    let kept: Vec<Option<String>> = specs.into_iter().filter(|s| s.is_some()).collect();
    assert_eq!(kept, reported);
}

#[test]
fn test_err() {
    let r = scan_source_rewrite(&bytes("{;"), "http://yeah.deno/");
    assert!(r.is_none());
}

#[test]
fn test_x() {
    let url = "http://deno.cool/index.html";
    let source = r##"
import something from "#../module_with_default_export.js";
import { something_else } from "#ordinary_module";
import * as everything from "#.js";

import "#same_line_1"; import "#same_line_2";

import ""; // Empty specifier.

await everything();

import "#after_top_level_await";

export * from "#complete re-exported module";
export { that } from "#partially re-exported module";

import "#repeated_import";
import "#repeated_import";

/* padding */ import _ from "#at column 14"; // Foo!
"##;
    let _ = scan_source_rewrite(&bytes(source), url);
}

#[test]
fn scenario_two_imports_two_lines() {
    let r = scan_source(&bytes("import \"a\";\nimport \"b\";")).unwrap();
    assert_eq!(
        r,
        vec![desc("a", ImportKind::Import, 1, 0), desc("b", ImportKind::Import, 2, 0)]
    );
}

#[test]
fn scenario_two_imports_one_line() {
    let r = scan_source(&bytes("import x from \"m\"; import y from \"n\";")).unwrap();
    assert_eq!(r.len(), 2);
    assert_eq!(r[0], desc("m", ImportKind::Import, 1, 0));
    assert_eq!(r[1], desc("n", ImportKind::Import, 1, 19));
}

#[test]
fn scenario_wildcard_reexport() {
    let r = scan_source(&bytes("export * from \"z\";")).unwrap();
    assert_eq!(r, vec![desc("z", ImportKind::Export, 1, 0)]);
}

#[test]
fn scenario_invalid_source_is_absent() {
    assert!(scan_source(&bytes("{;")).is_none());
}

#[test]
fn scenario_empty_specifier() {
    let r = scan_source(&bytes("import \"\";")).unwrap();
    assert_eq!(r, vec![desc("", ImportKind::Import, 1, 0)]);
}

#[test]
fn no_specifier_bearing_declarations_yield_empty() {
    let r = scan_source(&bytes("var x = 1;\nfunction f() {}\n")).unwrap();
    assert_eq!(r, Vec::new());
}

#[test]
fn named_export_without_source_yields_nothing() {
    let r = scan_source(&bytes("var x = 1;\nexport { x };\n")).unwrap();
    assert_eq!(r, Vec::new());
}

#[test]
fn column_counts_utf16_units() {
    // The emoji takes two UTF-16 units (four UTF-8 bytes), so the second
    // statement starts at column 14, not at 13 (code points) or 16 (bytes).
    let r = scan_source(&bytes("var a = \"\u{1F600}\"; import \"x\";")).unwrap();
    assert_eq!(r, vec![desc("x", ImportKind::Import, 1, 14)]);
}

#[test]
fn nested_declarations_are_not_reported() {
    let source = "function f() { var s = 'import \"a\"'; }\nimport \"b\";\n";
    let r = scan_source(&bytes(source)).unwrap();
    assert_eq!(r, vec![desc("b", ImportKind::Import, 2, 0)]);
}

#[test]
fn rewrite_hash_specifiers() {
    let source = "import \"#x\";\nimport \"plain\";\nexport { a } from \"#y\";\nimport \"\";\n";
    let (descriptors, items) = scan_source_rewrite(&bytes(source), "http://deno.cool/index.html")
        .unwrap();
    // The report shows the source exactly as written.
    assert_eq!(
        descriptors,
        vec![
            desc("#x", ImportKind::Import, 1, 0),
            desc("plain", ImportKind::Import, 2, 0),
            desc("#y", ImportKind::Export, 3, 0),
            desc("", ImportKind::Import, 4, 0),
        ]
    );
    // The items carry the rewritten specifiers: marked ones gain the
    // "./" + basename prefix, unmarked ones are untouched.
    assert_eq!(
        item_specifiers(&items),
        vec![
            Some("./index.html#x".to_string()),
            Some("plain".to_string()),
            Some("./index.html#y".to_string()),
            Some("".to_string()),
        ]
    );
}

#[test]
fn rewrite_with_empty_basename() {
    let (_, items) = scan_source_rewrite(&bytes("import \"#m\";"), "http://yeah.deno/").unwrap();
    assert_eq!(item_specifiers(&items), vec![Some("./#m".to_string())]);
}

#[test]
fn report_independent_of_rewrite() {
    let src = "import \"#x\";\nimport \"y\";";
    let plain = scan_source(&bytes(src)).unwrap();
    let (rewritten_report, _) =
        scan_source_rewrite(&bytes(src), "http://deno.cool/a/b.js").unwrap();
    assert_eq!(plain, rewritten_report);
}

#[test]
fn basename_is_last_path_segment() {
    let (_, items) =
        scan_source_rewrite(&bytes("import \"#m\";"), "http://deno.cool/a/b.js").unwrap();
    assert_eq!(item_specifiers(&items), vec![Some("./b.js#m".to_string())]);
}

#[test]
fn crlf_lines_are_counted() {
    let r = scan_source(&bytes("import \"a\";\r\nimport \"b\";")).unwrap();
    assert_eq!(
        r,
        vec![desc("a", ImportKind::Import, 1, 0), desc("b", ImportKind::Import, 2, 0)]
    );
}

#[test]
fn permissive_dialect_is_accepted() {
    let src = "const x = <div attr=\"v\"></div>;\nimport \"after_jsx\";\n";
    let r = scan_source(&bytes(src)).unwrap();
    assert_eq!(r, vec![desc("after_jsx", ImportKind::Import, 2, 0)]);
}

#[test]
fn invalid_origin_is_absent() {
    assert!(scan_source_rewrite(&bytes("import \"a\";"), "not a url").is_none());
}

#[test]
fn origin_without_segments_is_absent() {
    assert!(scan_source_rewrite(&bytes("import \"a\";"), "data:text/plain,abc").is_none());
}
