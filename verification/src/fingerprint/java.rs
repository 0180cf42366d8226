//! The detector for processes that run on a Java virtual machine.
//!
//! A process is taken for a Java process when its executable's name ends in
//! `java`. Its command line is then read in two ways, in this order:
//!
//! 1. `-jar <path>`: the process runs a jar. When the jar is the JBoss
//!    Modules loader, the application is whatever the `jboss.home.dir` system
//!    property points to; otherwise it is the jar itself.
//! 2. `-classpath <list>` or `-cp <list>`: the application is found through
//!    the configuration, by the first entry whose main class is on the
//!    command line and whose jar is on the classpath.
//!
//! The second reading is tried only when the command line gives no jar to
//! the first.

use crate::config::{Config, ConfigView, JavaFingerprintView};
use crate::fingerprint::{action_view, FingerPrint};
use crate::process::{ContainerProcess, ProcessView};
use crate::text::{
    after_first, ends_with, first_index, fragments, is_substring, last_segment, last_segment_of,
    lemma_first_index, lemma_first_index_finds, lemma_first_index_is, same_text, split_after,
    split_on, starts_with,
};
use crate::tokens::{
    has_prefix, has_token, holds, is_either, is_text, position_holding, position_of_either,
    position_of_prefixed, position_of_token,
};
use vstd::prelude::*;
use vstd::string::StringExecFns;

verus! {

/// The path of a jar as the helper is to see it: `jar` itself when it is
/// absolute, else `jar` below the working directory.
pub open spec fn resolve_jar(cwd: Seq<char>, jar: Seq<char>) -> Seq<char> {
    if "/"@.is_prefix_of(jar) {
        jar
    } else {
        cwd + "/"@ + jar
    }
}

/// The action that hands `jar` to the jar helper.
pub open spec fn jar_action(
    helper: Seq<char>,
    out_dir: Seq<char>,
    cwd: Seq<char>,
    jar: Seq<char>,
) -> Seq<Seq<char>> {
    seq![helper, out_dir, resolve_jar(cwd, jar)]
}

/// The value of the `jboss.home.dir` system property on a command line: what
/// follows the first `=` in the first token that begins with
/// `-Djboss.home.dir`. `None` when no token begins so, or when that token
/// has no `=`.
pub open spec fn jboss_home(command_line: Seq<Seq<char>>) -> Option<Seq<char>> {
    let i = first_index(command_line, has_prefix("-Djboss.home.dir"@));
    if i < command_line.len() {
        after_first(command_line[i], '=')
    } else {
        None
    }
}

/// The action for a process launched through the JBoss Modules loader.
pub open spec fn module_loader_action(
    helper: Seq<char>,
    out_dir: Seq<char>,
    command_line: Seq<Seq<char>>,
) -> Option<Seq<Seq<char>>> {
    match jboss_home(command_line) {
        Some(home) => Some(seq![helper, out_dir, home]),
        None => None,
    }
}

/// The jar that a command line launches: the token behind the first `-jar`.
/// `None` when there is no `-jar`, or nothing behind the first one.
pub open spec fn jar_argument(command_line: Seq<Seq<char>>) -> Option<Seq<char>> {
    let i = first_index(command_line, is_text("-jar"@));
    if i + 1 < command_line.len() {
        Some(command_line[i + 1])
    } else {
        None
    }
}

/// The classpath of a command line: the token behind the first `-classpath`
/// or `-cp`, whichever comes first. `None` when there is neither, or nothing
/// behind the first one.
pub open spec fn classpath_argument(command_line: Seq<Seq<char>>) -> Option<Seq<char>> {
    let i = first_index(command_line, is_either("-classpath"@, "-cp"@));
    if i + 1 < command_line.len() {
        Some(command_line[i + 1])
    } else {
        None
    }
}

/// Whether a configuration entry identifies the process: its main class is a
/// token of the command line, and its jar fragment occurs in some entry of
/// the classpath.
pub open spec fn identifies(
    entry: JavaFingerprintView,
    command_line: Seq<Seq<char>>,
    jars: Seq<Seq<char>>,
) -> bool {
    &&& command_line.contains(entry.main_class)
    &&& exists|m: int| 0 <= m < jars.len() && is_substring(entry.main_jar, #[trigger] jars[m])
}

/// The predicate "identifies the process with this command line and these
/// classpath entries".
pub open spec fn identifying(command_line: Seq<Seq<char>>, jars: Seq<Seq<char>>) -> spec_fn(
    JavaFingerprintView,
) -> bool {
    |entry: JavaFingerprintView| identifies(entry, command_line, jars)
}

/// What the detector decides for a process that runs a jar.
pub open spec fn jar_launch(
    java: JavaView,
    out_dir: Seq<char>,
    process: ProcessView,
    jar: Seq<char>,
) -> Option<Seq<Seq<char>>> {
    if last_segment(jar) == "jboss-modules.jar"@ {
        module_loader_action(java.module_loader_helper, out_dir, process.command_line)
    } else {
        Some(jar_action(java.jar_helper, out_dir, process.cwd, jar))
    }
}

/// What the detector decides for a process that is given a classpath: the
/// first configured entry that identifies the process names the jar, and the
/// first classpath entry that holds that name is handed to the jar helper.
pub open spec fn classpath_launch(
    java: JavaView,
    config: ConfigView,
    out_dir: Seq<char>,
    process: ProcessView,
) -> Option<Seq<Seq<char>>> {
    match classpath_argument(process.command_line) {
        Some(classpath) => {
            let jars = fragments(classpath, ':');
            let k = first_index(config.java, identifying(process.command_line, jars));
            if k < config.java.len() {
                let m = first_index(jars, holds(config.java[k].main_jar));
                Some(jar_action(java.jar_helper, out_dir, process.cwd, jars[m]))
            } else {
                None
            }
        },
        None => None,
    }
}

/// What the Java detector decides.
pub open spec fn java_detection(
    java: JavaView,
    config: ConfigView,
    out_dir: Seq<char>,
    process: ProcessView,
) -> Option<Seq<Seq<char>>> {
    if !"java"@.is_suffix_of(process.name) {
        None
    } else {
        match jar_argument(process.command_line) {
            Some(jar) => jar_launch(java, out_dir, process, jar),
            None => classpath_launch(java, config, out_dir, process),
        }
    }
}

/// The Java detector. It names two helper programs: one that examines a jar,
/// and one that examines a JBoss home directory.
#[derive(Debug)]
pub struct Java {
    /// Path of the helper that examines a jar.
    pub jar_helper: String,
    /// Path of the helper that examines the home directory of a process
    /// launched through the JBoss Modules loader.
    pub module_loader_helper: String,
}

/// What a [`Java`] detector holds, as mathematical values.
pub struct JavaView {
    pub jar_helper: Seq<char>,
    pub module_loader_helper: Seq<char>,
}

impl View for Java {
    type V = JavaView;

    open spec fn view(&self) -> JavaView {
        JavaView {
            jar_helper: self.jar_helper@,
            module_loader_helper: self.module_loader_helper@,
        }
    }
}

/// The path of a jar as the helper is to see it.
pub fn absolute_jar_path(cwd: &str, jar: &str) -> (path: String)
    ensures
        path@ == resolve_jar(cwd@, jar@),
{
    if starts_with(jar, "/") {
        jar.to_owned()
    } else {
        let mut path = cwd.to_owned();
        path.append("/");
        path.append(jar);
        path
    }
}

impl Java {
    /// The detector with the helpers at their conventional places, beside
    /// the program that runs them.
    pub fn new() -> (java: Java)
        ensures
            java@.jar_helper == "./fpr_java_runtimes"@,
            java@.module_loader_helper == "./fpr_java_jboss_modules"@,
    {
        Java {
            jar_helper: "./fpr_java_runtimes".to_owned(),
            module_loader_helper: "./fpr_java_jboss_modules".to_owned(),
        }
    }

    /// A detector that names the given helpers.
    pub fn with_helpers(jar_helper: String, module_loader_helper: String) -> (java: Java)
        ensures
            java@ == (JavaView {
                jar_helper: jar_helper@,
                module_loader_helper: module_loader_helper@,
            }),
    {
        Java { jar_helper, module_loader_helper }
    }

    /// The action for a process launched through the JBoss Modules loader:
    /// the module-loader helper on the directory that the `jboss.home.dir`
    /// system property names, if the command line sets it.
    pub fn jboss_modules_executable(
        &self,
        out_dir: &String,
        process: &ContainerProcess,
    ) -> (action: Option<Vec<String>>)
        ensures
            action_view(action) == module_loader_action(
                self@.module_loader_helper,
                out_dir@,
                process@.command_line,
            ),
    {
        let tokens = &process.command_line;
        let at = position_of_prefixed(tokens, "-Djboss.home.dir");
        if at >= tokens.len() {
            return None;
        }
        match split_after(tokens[at].as_str(), '=') {
            Some(home) => {
                let argv = vec![self.module_loader_helper.clone(), out_dir.clone(), home.to_owned()];
                assert(argv.deep_view() =~= seq![self@.module_loader_helper, out_dir@, home@]);
                Some(argv)
            },
            None => None,
        }
    }

    /// The action that hands `jar` to the jar helper, with a relative `jar`
    /// resolved against the working directory of `process`.
    pub fn jar_executable(
        &self,
        out_dir: &String,
        process: &ContainerProcess,
        jar: &str,
    ) -> (action: Option<Vec<String>>)
        ensures
            action_view(action) == Some(
                jar_action(self@.jar_helper, out_dir@, process@.cwd, jar@),
            ),
    {
        let path = absolute_jar_path(process.cwd.as_str(), jar);
        let argv = vec![self.jar_helper.clone(), out_dir.clone(), path];
        assert(argv.deep_view() =~= jar_action(self@.jar_helper, out_dir@, process@.cwd, jar@));
        Some(argv)
    }

    /// The action for a process that is given a classpath.
    pub fn classpath_executable(
        &self,
        config: &Config,
        out_dir: &String,
        process: &ContainerProcess,
    ) -> (action: Option<Vec<String>>)
        ensures
            action_view(action) == classpath_launch(self@, config@, out_dir@, process@),
    {
        let tokens = &process.command_line;
        let at = position_of_either(tokens, "-classpath", "-cp");
        if at >= tokens.len() || at + 1 >= tokens.len() {
            return None;
        }
        let jars = split_on(tokens[at + 1].as_str(), ':');
        let entries = &config.fingerprints.java;
        let ghost p = identifying(process@.command_line, jars.deep_view());
        let mut k: usize = 0;
        while k < entries.len()
            invariant
                k <= entries.len(),
                entries == &config.fingerprints.java,
                tokens == &process.command_line,
                at + 1 < tokens.len(),
                at == first_index(process@.command_line, is_either("-classpath"@, "-cp"@)),
                jars.deep_view() == fragments(process@.command_line[at + 1], ':'),
                p == identifying(process@.command_line, jars.deep_view()),
                forall|j: int| 0 <= j < k ==> !p(#[trigger] config@.java[j]),
            decreases entries.len() - k,
        {
            let entry = &entries[k];
            if has_token(tokens, entry.main_class.as_str()) {
                let m = position_holding(&jars, entry.main_jar.as_str());
                proof {
                    lemma_first_index_finds(jars.deep_view(), holds(entry.main_jar@));
                }
                if m < jars.len() {
                    proof {
                        lemma_first_index_is(config@.java, p, k as int);
                    }
                    return self.jar_executable(out_dir, process, jars[m].as_str());
                }
            }
            k += 1;
        }
        proof {
            lemma_first_index_is(config@.java, p, k as int);
        }
        None
    }
}

impl FingerPrint for Java {
    open spec fn detection(
        &self,
        config: ConfigView,
        out_dir: Seq<char>,
        process: ProcessView,
    ) -> Option<Seq<Seq<char>>> {
        java_detection(self@, config, out_dir, process)
    }

    fn can_apply_to(
        &self,
        config: &Config,
        out_dir: &String,
        process: &ContainerProcess,
    ) -> (action: Option<Vec<String>>) {
        if !ends_with(process.name.as_str(), "java") {
            return None;
        }
        let tokens = &process.command_line;
        let at = position_of_token(tokens, "-jar");
        if at < tokens.len() && at + 1 < tokens.len() {
            let jar = tokens[at + 1].as_str();
            if same_text(last_segment_of(jar), "jboss-modules.jar") {
                self.jboss_modules_executable(out_dir, process)
            } else {
                self.jar_executable(out_dir, process, jar)
            }
        } else {
            proof {
                lemma_first_index(process@.command_line, is_text("-jar"@));
            }
            self.classpath_executable(config, out_dir, process)
        }
    }
}

} // verus!
