use indexmap::IndexMap;
use lava_operator::magma_bridge::{
    bindings_to_artifact_bindings, magma_lava_synthesize, source_to_lava_source, LavaSource,
};
use lava_operator::Source;

fn lava(source: &LavaSource) -> magma_lava::LavaSource {
    match source {
        LavaSource::Inline { inline } => magma_lava::LavaSource::Inline { inline: inline.clone() },
        LavaSource::Bundled { name } => magma_lava::LavaSource::Bundled { name: name.clone() },
        LavaSource::Path { path } => magma_lava::LavaSource::Path { path: path.into() },
    }
}

fn render(
    source: &LavaSource,
    bindings: &IndexMap<String, magma_lava::Binding>,
    gate: Option<&str>,
) -> Result<serde_json::Value, String> {
    magma_lava::synthesize_source(&lava(source), bindings, gate)
        .map(|p| p.terraform_json)
        .map_err(|e| e.to_string())
}

#[test]
fn inline_source_round_trips_into_lava_source() {
    let src = Source::Inline {
        inline: "(deflava-architecture demo :inputs () :resources ())".into(),
    };
    let lava = source_to_lava_source(&src);
    assert!(matches!(lava, LavaSource::Inline { .. }));
}

#[test]
fn name_source_round_trips_into_bundled() {
    let src = Source::Name { name: "aws-vpc-network".into() };
    let lava = source_to_lava_source(&src);
    assert!(matches!(lava, LavaSource::Bundled { .. }));
}

#[test]
fn bindings_convert_to_scalar_artifact_bindings() {
    let mut b = IndexMap::new();
    b.insert("cidr".to_string(), "10.0.0.0/16".to_string());
    let out = bindings_to_artifact_bindings(&b);
    assert!(matches!(out.get("cidr"), Some(magma_lava::Binding::Scalar(_))));
}

#[test]
fn magma_lava_synthesize_renders_inline_tlisp_to_terraform_json() {
    let src = Source::Inline {
        inline: r#"
                (deflava-architecture demo
                  :inputs ((:cidr "10.42.0.0/16"))
                  :resources ((aws_vpc "main" :cidr-block "{cidr}")))
            "#
        .to_string(),
    };
    let json = magma_lava_synthesize(render, &src, &IndexMap::new(), None).unwrap();
    assert!(json["resource"]["aws_vpc"]["main"].is_object());
}

#[test]
fn git_source_is_read_from_its_path() {
    let src = Source::Git { url: "u".into(), rev: "r".into(), path: "infra/vpc.tlisp".into() };
    assert_eq!(
        source_to_lava_source(&src),
        LavaSource::Path { path: "infra/vpc.tlisp".into() }
    );
}

#[test]
fn artifact_bindings_keep_keys_values_and_order() {
    let mut b = IndexMap::new();
    b.insert("z".to_string(), "1".to_string());
    b.insert("a".to_string(), "2".to_string());
    let out = bindings_to_artifact_bindings(&b);
    let got: Vec<(String, String)> = out
        .into_iter()
        .map(|(k, v)| match v {
            magma_lava::Binding::Scalar(s) => (k, s),
            magma_lava::Binding::List(_) => panic!("scalar expected"),
        })
        .collect();
    assert_eq!(
        got,
        vec![("z".to_string(), "1".to_string()), ("a".to_string(), "2".to_string())]
    );
}

#[test]
fn renderer_gets_source_bindings_and_gate() {
    let mut b = IndexMap::new();
    b.insert("k".to_string(), "v".to_string());
    let src = Source::Name { name: "vpc".into() };
    let r = magma_lava_synthesize(
        |s: &LavaSource, b: &IndexMap<String, magma_lava::Binding>, g: Option<&str>| {
            assert_eq!(s, &LavaSource::Bundled { name: "vpc".into() });
            assert_eq!(b.len(), 1);
            assert_eq!(g, Some("gate"));
            Err("no renderer".to_string())
        },
        &src,
        &b,
        Some("gate"),
    );
    assert_eq!(r, Err("no renderer".to_string()));
}

#[test]
fn broken_source_is_an_error() {
    let src = Source::Inline { inline: "(deflava-architecture".into() };
    assert!(magma_lava_synthesize(render, &src, &IndexMap::new(), None).is_err());
}
