use std::collections::HashMap;
use wesl_web::compile::{
    compile, compile_impl, compile_options, error_message, finish, load_modules, make_mangler,
    markup_message, presented,
};
use wesl_web::options::{ManglerKind, WeslOptions};

fn request(files: &[(&str, &str)], root: &str) -> WeslOptions {
    WeslOptions {
        files: files.iter().map(|(p, s)| (p.to_string(), s.to_string())).collect(),
        root: root.to_string(),
        mangler: ManglerKind::Escape,
        imports: true,
        condcomp: true,
        strip: false,
        entrypoints: None,
        features: HashMap::new(),
        eval: None,
    }
}

const UTIL: &str = "alias V = vec3<f32>;\nfn helper() -> f32 { return 2.0; }\nfn make() -> V { let v: V = vec3<f32>(1.0, 2.0, 3.0); return v; }\n";
const MAIN: &str = "import package::util::make;\n@fragment\nfn main() -> @location(0) vec4<f32> { let v = make(); return vec4<f32>(v, 1.0); }\n";

#[test]
fn scenario_unused_helper_and_alias_are_gone() {
    let mut req = request(&[("main", MAIN), ("util", UTIL)], "main");
    req.strip = true;
    req.entrypoints = Some(vec!["main".to_string()]);
    let out = compile_impl(req).unwrap_or_else(|e| panic!("{e}"));
    assert!(!out.contains("helper"), "{out}");
    assert!(!out.contains("alias"), "{out}");
    assert!(out.contains("vec3<f32>"), "{out}");
    assert!(out.contains("fn main"), "{out}");
}

#[test]
fn scenario_false_feature_removes_declaration() {
    let src = "@if(DEBUG)\nfn debug_only() -> f32 { return 1.0; }\nfn kept() -> f32 { return 2.0; }\n";
    let mut req = request(&[("main", src)], "main");
    req.features.insert("DEBUG".to_string(), false);
    let out = compile_impl(req).unwrap_or_else(|e| panic!("{e}"));
    assert!(!out.contains("debug_only"), "{out}");
    assert!(out.contains("kept"), "{out}");
}

#[test]
fn true_feature_keeps_declaration() {
    let src = "@if(DEBUG)\nfn debug_only() -> f32 { return 1.0; }\nfn kept() -> f32 { return 2.0; }\n";
    let mut req = request(&[("main", src)], "main");
    req.features.insert("DEBUG".to_string(), true);
    let out = compile_impl(req).unwrap_or_else(|e| panic!("{e}"));
    assert!(out.contains("debug_only"), "{out}");
}

#[test]
fn same_features_prune_alike_in_any_order() {
    let a = "@if(A)\nfn fa() -> f32 { return 1.0; }\n@if(B)\nfn fb() -> f32 { return 2.0; }\nfn fc() -> f32 { return 3.0; }\n";
    let b = "fn fc() -> f32 { return 3.0; }\n@if(B)\nfn fb() -> f32 { return 2.0; }\n@if(A)\nfn fa() -> f32 { return 1.0; }\n";
    let run = |src: &str| {
        let mut req = request(&[("main", src)], "main");
        req.features.insert("A".to_string(), true);
        req.features.insert("B".to_string(), false);
        compile_impl(req).unwrap_or_else(|e| panic!("{e}"))
    };
    for out in [run(a), run(b)] {
        assert!(out.contains("fa"), "{out}");
        assert!(!out.contains("fb"), "{out}");
        assert!(out.contains("fc"), "{out}");
    }
}

#[test]
fn scenario_evaluates_expression() {
    let mut req = request(&[("main", "const K = 4;\n")], "main");
    req.eval = Some("1 + 2 * 3".to_string());
    let out = compile_impl(req).unwrap_or_else(|e| panic!("{e}"));
    assert_eq!(out.lines().last(), Some("7"), "{out}");
    assert!(out.contains("const K"), "{out}");
}

#[test]
fn evaluates_against_declared_constant() {
    let mut req = request(&[("main", "const K = 4;\n")], "main");
    req.eval = Some("K * 2".to_string());
    let out = compile_impl(req).unwrap_or_else(|e| panic!("{e}"));
    assert_eq!(out.lines().last(), Some("8"), "{out}");
}

#[test]
fn undefined_identifier_points_into_expression() {
    let mut req = request(&[("main", "const K = 4;\n")], "main");
    req.eval = Some("1 + missing".to_string());
    let err = compile_impl(req).err().expect("evaluation must fail");
    let text = err.to_string();
    assert!(text.contains("missing"), "{text}");
}

#[test]
fn separate_modules_keep_their_declarations() {
    let a = "fn alpha() -> f32 { return 1.0; }\n";
    let mut req = request(&[("main", a)], "main");
    req.imports = false;
    req.condcomp = false;
    let out = compile_impl(req).unwrap_or_else(|e| panic!("{e}"));
    assert!(out.contains("fn alpha() -> f32"), "{out}");
    assert!(out.contains("return 1"), "{out}");
}

fn two_modules_same_name(mangler: ManglerKind) -> Result<String, String> {
    let a = "fn item() -> f32 { return 1.0; }\n";
    let b = "fn item() -> f32 { return 2.0; }\n";
    let main = "import package::a::item;\nimport package::b::item as other;\n@fragment\nfn main() -> @location(0) vec4<f32> { return vec4<f32>(item(), other(), 0.0, 1.0); }\n";
    let mut req = request(&[("main", main), ("a", a), ("b", b)], "main");
    req.mangler = mangler;
    compile(req)
}

#[test]
fn missing_module_is_an_error() {
    let main = "import package::nowhere::thing;\n@fragment\nfn main() -> @location(0) vec4<f32> { return vec4<f32>(thing(), 0.0, 0.0, 1.0); }\n";
    let mut req = request(&[("main", main)], "main");
    req.strip = true;
    assert!(compile(req).is_err());
}

#[test]
fn escape_and_hash_names_differ_across_modules() {
    for kind in [ManglerKind::Escape, ManglerKind::Hash] {
        match two_modules_same_name(kind) {
            Ok(out) => {
                let decls: Vec<&str> = out.lines().filter(|l| l.starts_with("fn ")).collect();
                assert_eq!(decls.len(), 3, "{out}");
                let names: std::collections::HashSet<&str> =
                    decls.iter().map(|l| l.split('(').next().unwrap()).collect();
                assert_eq!(names.len(), decls.len(), "{out}");
            }
            Err(e) => panic!("{e}"),
        }
    }
}

#[test]
fn diagnostic_is_html_escaped() {
    let main = "fn broken( -> f32 { <<< }\n";
    let req = request(&[("main", main)], "main");
    let err = compile(req).err().expect("must fail");
    assert!(!err.contains("\u{1b}["), "{err}");
}

#[test]
fn default_mangler_is_escape() {
    assert!(ManglerKind::default() == ManglerKind::Escape);
}

#[test]
fn mangler_kinds_map_to_schemes() {
    assert_eq!(make_mangler(&ManglerKind::Escape), wesl::ManglerKind::Escape);
    assert_eq!(make_mangler(&ManglerKind::Hash), wesl::ManglerKind::Hash);
    assert_eq!(make_mangler(&ManglerKind::Passthrough), wesl::ManglerKind::None);
}

#[test]
fn options_carry_the_switches() {
    let mut feats = HashMap::new();
    feats.insert("X".to_string(), true);
    let o = compile_options(false, true, true, false, Some(vec!["main".to_string()]), feats.clone());
    assert!(!o.imports && o.condcomp && o.strip && o.lower && o.lazy && o.validate && !o.generics);
    let e = compile_options(true, true, true, true, None, HashMap::new());
    assert!(!e.lower);
    let n = compile_options(true, true, false, false, None, HashMap::new());
    assert!(!n.lower);
    assert_eq!(o.keep, Some(vec!["main".to_string()]));
    assert_eq!(o.features, feats);
}

#[test]
fn error_message_prefers_markup() {
    assert_eq!(error_message("a".to_string(), Some("<b>a</b>".to_string())), "<b>a</b>");
    assert_eq!(error_message("a".to_string(), None), "a");
}

#[test]
fn many_modules_get_distinct_names() {
    let count = 40;
    let modules: Vec<(String, String)> = (0..count)
        .map(|k| (format!("mod{k}"), format!("fn item() -> f32 {{ return {k}.0; }}\n")))
        .collect();
    let imports: String =
        (0..count).map(|k| format!("import package::mod{k}::item as item{k};\n")).collect();
    let sum: Vec<String> = (0..count).map(|k| format!("item{k}()")).collect();
    let main = format!(
        "{imports}@fragment\nfn main() -> @location(0) vec4<f32> {{ let s = {}; return vec4<f32>(s, 0.0, 0.0, 1.0); }}\n",
        sum.join(" + ")
    );
    for kind in [ManglerKind::Escape, ManglerKind::Hash] {
        let mut files: Vec<(&str, &str)> = modules.iter().map(|(p, s)| (p.as_str(), s.as_str())).collect();
        files.push(("main", main.as_str()));
        let mut req = request(&files, "main");
        req.mangler = kind;
        let out = compile_impl(req).unwrap_or_else(|e| panic!("{e}"));
        let names: Vec<&str> = out
            .lines()
            .filter(|l| l.starts_with("fn "))
            .map(|l| l.split('(').next().unwrap())
            .collect();
        let distinct: std::collections::HashSet<&str> = names.iter().copied().collect();
        assert_eq!(names.len(), count + 1, "{out}");
        assert_eq!(distinct.len(), names.len(), "{out}");
    }
}

fn squeeze(s: &str) -> String {
    s.chars().filter(|c| !c.is_whitespace()).collect()
}

#[test]
fn passthrough_without_stages_reproduces_input() {
    let src = "alias T = f32;\nconst K: T = 2.0;\nfn alpha(x: T) -> T {\n    return x * K;\n}\n";
    let mut req = request(&[("main", src)], "main");
    req.imports = false;
    req.condcomp = false;
    req.strip = false;
    req.mangler = ManglerKind::Passthrough;
    let out = compile_impl(req).unwrap_or_else(|e| panic!("{e}"));
    assert_eq!(squeeze(&out), squeeze(src), "{out}");
}

#[test]
fn unknown_flag_is_left_unevaluated() {
    let src = "@if(UNSET)\nfn maybe() -> f32 { return 1.0; }\n";
    let req = request(&[("main", src)], "main");
    let out = compile_impl(req).unwrap_or_else(|e| panic!("{e}"));
    assert!(out.contains("@if(UNSET)"), "{out}");
    assert!(out.contains("maybe"), "{out}");
}

#[test]
fn finish_appends_value_after_program() {
    assert_eq!(finish("fn f() {}".to_string(), None).ok(), Some("fn f() {}".to_string()));
    assert_eq!(
        finish("fn f() {}".to_string(), Some(Ok("7".to_string()))).ok(),
        Some("fn f() {}\n7".to_string())
    );
}

#[test]
fn presented_keeps_success_text() {
    assert_eq!(presented(Ok("out".to_string())), Ok("out".to_string()));
}

#[test]
fn markup_message_escapes_html() {
    let m = markup_message("a < b \u{1b}[1mbold\u{1b}[0m".to_string());
    assert!(m.contains("&lt;"), "{m}");
    assert!(m.contains("<b>bold</b>"), "{m}");
}

#[test]
fn later_module_entry_replaces_earlier() {
    let files = vec![
        ("main".to_string(), "fn first_fn() -> f32 { return 1.0; }\n".to_string()),
        ("main".to_string(), "fn second_fn() -> f32 { return 2.0; }\n".to_string()),
    ];
    let _store = load_modules(&files);
    let req = WeslOptions { files, ..request(&[], "main") };
    let out = compile_impl(req).unwrap_or_else(|e| panic!("{e}"));
    assert!(out.contains("fn second_fn"), "{out}");
    assert!(!out.contains("fn first_fn"), "{out}");
}
