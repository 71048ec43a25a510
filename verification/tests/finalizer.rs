use indexmap::IndexMap;
use lava_operator::finalizer::{run_finalizer, DestroyBackend, MockDestroy};
use lava_operator::{Condition, Phase, Source};

#[test]
fn successful_destroy_drives_to_finalizing_phase() {
    let outcome = run_finalizer(
        &MockDestroy::ok(),
        &Source::Inline { inline: "src".into() },
        &IndexMap::new(),
    );
    assert_eq!(outcome.phase, Phase::Finalizing);
    assert_eq!(outcome.conditions[0].status, "True");
}

#[test]
fn destroy_diagnostics_surface_as_conditions() {
    let outcome = run_finalizer(
        &MockDestroy::with_diagnostics(vec!["removed 3 resources".into()]),
        &Source::Inline { inline: "src".into() },
        &IndexMap::new(),
    );
    assert_eq!(outcome.conditions.len(), 2);
    assert_eq!(outcome.conditions[1].kind, "Diagnostic");
}

#[test]
fn failed_destroy_drives_to_failed_phase_with_message() {
    let outcome = run_finalizer(
        &MockDestroy::err("provider unreachable"),
        &Source::Inline { inline: "src".into() },
        &IndexMap::new(),
    );
    assert_eq!(outcome.phase, Phase::Failed);
    assert_eq!(outcome.conditions[0].status, "False");
    assert_eq!(outcome.conditions[0].message.as_deref(), Some("provider unreachable"));
}

#[test]
fn diagnostics_keep_their_order() {
    let outcome = run_finalizer(
        &MockDestroy::with_diagnostics(vec!["first".into(), "second".into()]),
        &Source::Name { name: "vpc".into() },
        &IndexMap::new(),
    );
    assert_eq!(
        outcome.conditions,
        vec![
            Condition::ok("Destroyed", "BackendOk"),
            Condition::ok("Diagnostic", "first"),
            Condition::ok("Diagnostic", "second"),
        ]
    );
    assert_eq!(outcome.terraform_json, None);
}

struct Picky;

impl DestroyBackend for Picky {
    fn destroy(
        &self,
        source: &Source,
        bindings: &IndexMap<String, String>,
    ) -> Result<Vec<String>, String> {
        match source {
            Source::Name { name } if bindings.contains_key("force") => Ok(vec![name.clone()]),
            _ => Err("refused".into()),
        }
    }
}

#[test]
fn backend_gets_source_and_bindings() {
    let source = Source::Name { name: "vpc".into() };
    let mut bindings = IndexMap::new();
    assert_eq!(run_finalizer(&Picky, &source, &bindings).phase, Phase::Failed);
    bindings.insert("force".to_string(), "yes".to_string());
    let outcome = run_finalizer(&Picky, &source, &bindings);
    assert_eq!(outcome.phase, Phase::Finalizing);
    assert_eq!(outcome.conditions[1].reason.as_deref(), Some("vpc"));
}
