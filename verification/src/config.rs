//! Declarative hints that tell detectors how to recognise a runtime.

use vstd::prelude::*;

verus! {

/// One hint for classpath-launched Java processes: a process whose command
/// line names `main_class` is looked up by the jar whose path holds
/// `main_jar`.
#[derive(Debug)]
pub struct JavaFingerprint {
    /// Human-readable label of the runtime.
    pub runtime_name: String,
    /// Fully qualified main class, matched against whole command-line tokens.
    pub main_class: String,
    /// Fragment of the jar's name, matched inside classpath entries.
    pub main_jar: String,
}

/// What a [`JavaFingerprint`] holds, as mathematical values.
pub struct JavaFingerprintView {
    pub runtime_name: Seq<char>,
    pub main_class: Seq<char>,
    pub main_jar: Seq<char>,
}

impl View for JavaFingerprint {
    type V = JavaFingerprintView;

    open spec fn view(&self) -> JavaFingerprintView {
        JavaFingerprintView {
            runtime_name: self.runtime_name@,
            main_class: self.main_class@,
            main_jar: self.main_jar@,
        }
    }
}

impl JavaFingerprint {
    /// A hint with the given label, main class and jar fragment.
    pub fn new(runtime_name: String, main_class: String, main_jar: String) -> (entry: Self)
        ensures
            entry@ == (JavaFingerprintView {
                runtime_name: runtime_name@,
                main_class: main_class@,
                main_jar: main_jar@,
            }),
    {
        JavaFingerprint { runtime_name, main_class, main_jar }
    }
}

/// The hints of every runtime family, each family in its configured order.
#[derive(Debug)]
pub struct Fingerprints {
    /// Hints for Java processes. Earlier entries take precedence.
    pub java: Vec<JavaFingerprint>,
}

/// The runtime configuration handed to every detector.
#[derive(Debug)]
pub struct Config {
    pub fingerprints: Fingerprints,
}

/// What a [`Config`] holds, as mathematical values.
pub struct ConfigView {
    pub java: Seq<JavaFingerprintView>,
}

impl View for Config {
    type V = ConfigView;

    open spec fn view(&self) -> ConfigView {
        ConfigView { java: self.fingerprints.java@.map_values(|e: JavaFingerprint| e@) }
    }
}

impl Config {
    /// A configuration with the given Java hints, in the given order.
    pub fn new(java: Vec<JavaFingerprint>) -> (config: Self)
        ensures
            config@.java == java@.map_values(|e: JavaFingerprint| e@),
    {
        Config { fingerprints: Fingerprints { java } }
    }
}

} // verus!
