use insights_runtime_extractor::config::Config;
use insights_runtime_extractor::fingerprint::java::Java;
use insights_runtime_extractor::fingerprint::{Detector, DispatchEngine, FingerPrint};
use insights_runtime_extractor::process::ContainerProcess;

fn argv(items: &[&str]) -> Vec<String> {
    items.iter().map(|s| s.to_string()).collect()
}

fn java_process(items: &[&str]) -> ContainerProcess {
    ContainerProcess::new(1, "java".to_string(), argv(items), "/srv".to_string())
}

fn named(jar_helper: &str, module_loader_helper: &str) -> Java {
    Java::with_helpers(jar_helper.to_string(), module_loader_helper.to_string())
}

#[test]
fn engine_without_detectors_declines() {
    let engine: DispatchEngine<Detector> = DispatchEngine::new();
    let p = java_process(&["java", "-jar", "app.jar"]);
    assert_eq!(engine.dispatch(&Config::new(Vec::new()), &"out".to_string(), &p), None);
}

#[test]
fn engine_returns_what_its_detector_proposes() {
    let mut engine = DispatchEngine::new();
    engine.register(Detector::Java(named("jarHelper", "moduleLoaderHelper")));
    let config = Config::new(Vec::new());
    let out = "out".to_string();
    let p = java_process(&["java", "-jar", "app.jar"]);
    assert_eq!(
        engine.dispatch(&config, &out, &p),
        Some(argv(&["jarHelper", "out", "/srv/app.jar"]))
    );
    assert_eq!(
        engine.dispatch(&config, &out, &p),
        Detector::Java(named("jarHelper", "moduleLoaderHelper")).can_apply_to(&config, &out, &p)
    );
}

#[test]
fn engine_declines_when_every_detector_declines() {
    let mut engine = DispatchEngine::new();
    engine.register(named("a", "b"));
    engine.register(named("c", "d"));
    let p = ContainerProcess::new(
        7,
        "node".to_string(),
        argv(&["node", "-jar", "app.jar"]),
        "/srv".to_string(),
    );
    assert_eq!(engine.dispatch(&Config::new(Vec::new()), &"out".to_string(), &p), None);
}

#[test]
fn earlier_detector_has_priority() {
    let mut engine = DispatchEngine::new();
    engine.register(named("first", "first-loader"));
    engine.register(named("second", "second-loader"));
    assert_eq!(engine.detectors.len(), 2);
    let p = java_process(&["java", "-jar", "/app.jar"]);
    assert_eq!(
        engine.dispatch(&Config::new(Vec::new()), &"out".to_string(), &p),
        Some(argv(&["first", "out", "/app.jar"]))
    );
}

#[test]
fn registration_keeps_order() {
    let mut engine = DispatchEngine::new();
    engine.register(named("one", "x"));
    engine.register(named("two", "y"));
    engine.register(named("three", "z"));
    let helpers: Vec<&str> = engine.detectors.iter().map(|d| d.jar_helper.as_str()).collect();
    assert_eq!(helpers, vec!["one", "two", "three"]);
}
