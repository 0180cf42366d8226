//! What follows from the definition of the Java detector.
//!
//! Each theorem is stated over [`java_detection`], the function that
//! [`Java::can_apply_to`](crate::fingerprint::java::Java) is proved to
//! compute, so each holds of every answer the detector gives.
//!
//! Throughout, "the first `-jar`" is the `-jar` token that no other `-jar`
//! precedes: a command line is read from the left, and a flag that is
//! repeated counts once, where it first stands.

use crate::config::ConfigView;
use crate::fingerprint::java::{
    classpath_argument, identifies, identifying, jar_action, jar_argument, jar_launch,
    java_detection, jboss_home, resolve_jar, JavaView,
};
use crate::process::ProcessView;
use crate::text::{
    first_index, fragments, is_char, is_substring, last_segment, lemma_first_index,
    lemma_first_index_is,
};
use crate::tokens::{has_prefix, holds, is_either, is_text};
use vstd::prelude::*;

verus! {

/// Whether `i` is the place of the first `-jar` on the command line and a
/// token follows it.
pub open spec fn launches_jar_at(command_line: Seq<Seq<char>>, i: int) -> bool {
    &&& 0 <= i
    &&& i + 1 < command_line.len()
    &&& command_line[i] == "-jar"@
    &&& forall|j: int| 0 <= j < i ==> command_line[j] != "-jar"@
}

/// Whether `i` is the place of the first `-classpath` or `-cp` on the command
/// line and a token follows it.
pub open spec fn gives_classpath_at(command_line: Seq<Seq<char>>, i: int) -> bool {
    &&& 0 <= i
    &&& i + 1 < command_line.len()
    &&& (command_line[i] == "-classpath"@ || command_line[i] == "-cp"@)
    &&& forall|j: int|
        0 <= j < i ==> command_line[j] != "-classpath"@ && command_line[j] != "-cp"@
}

/// The jar argument is the token behind the first `-jar`.
pub proof fn lemma_jar_argument_at(command_line: Seq<Seq<char>>, i: int)
    requires
        launches_jar_at(command_line, i),
    ensures
        jar_argument(command_line) == Some(command_line[i + 1]),
{
    lemma_first_index_is(command_line, is_text("-jar"@), i);
}

/// The classpath argument is the token behind the first `-classpath` or
/// `-cp`.
pub proof fn lemma_classpath_argument_at(command_line: Seq<Seq<char>>, i: int)
    requires
        gives_classpath_at(command_line, i),
    ensures
        classpath_argument(command_line) == Some(command_line[i + 1]),
{
    lemma_first_index_is(command_line, is_either("-classpath"@, "-cp"@), i);
}

/// A process whose name does not end in `java` is declined, whatever its
/// command line and whatever the configuration.
pub proof fn theorem_other_names_are_declined(
    java: JavaView,
    config: ConfigView,
    out_dir: Seq<char>,
    process: ProcessView,
)
    requires
        !"java"@.is_suffix_of(process.name),
    ensures
        java_detection(java, config, out_dir, process) is None,
{
}

/// A Java process that launches a jar other than the JBoss Modules loader is
/// handed to the jar helper, with the jar's path unchanged when it is
/// absolute and placed below the working directory when it is not.
pub proof fn theorem_jar_launch(
    java: JavaView,
    config: ConfigView,
    out_dir: Seq<char>,
    process: ProcessView,
    i: int,
)
    requires
        "java"@.is_suffix_of(process.name),
        launches_jar_at(process.command_line, i),
        last_segment(process.command_line[i + 1]) != "jboss-modules.jar"@,
    ensures
        java_detection(java, config, out_dir, process) == Some(
            seq![
                java.jar_helper,
                out_dir,
                resolve_jar(process.cwd, process.command_line[i + 1]),
            ],
        ),
        "/"@.is_prefix_of(process.command_line[i + 1]) ==> resolve_jar(
            process.cwd,
            process.command_line[i + 1],
        ) == process.command_line[i + 1],
        !"/"@.is_prefix_of(process.command_line[i + 1]) ==> resolve_jar(
            process.cwd,
            process.command_line[i + 1],
        ) == process.cwd + "/"@ + process.command_line[i + 1],
{
    lemma_jar_argument_at(process.command_line, i);
}

/// The token `-Djboss.home.dir=H`, standing at `k` with no token that begins
/// with `-Djboss.home.dir` before it, sets the JBoss home to `H`.
pub proof fn lemma_jboss_home_at(command_line: Seq<Seq<char>>, k: int, home: Seq<char>)
    requires
        0 <= k < command_line.len(),
        command_line[k] == "-Djboss.home.dir="@ + home,
        forall|j: int| 0 <= j < k ==> !"-Djboss.home.dir"@.is_prefix_of(command_line[j]),
    ensures
        jboss_home(command_line) == Some(home),
{
    reveal_strlit("-Djboss.home.dir");
    reveal_strlit("-Djboss.home.dir=");
    let name = "-Djboss.home.dir"@;
    let token = command_line[k];
    assert(token.subrange(0, name.len() as int) =~= name);
    lemma_first_index_is(command_line, has_prefix(name), k);
    lemma_first_index_is(token, is_char('='), 16);
    assert(token.subrange(17, token.len() as int) =~= home);
}

/// A Java process that launches the JBoss Modules loader with the system
/// property `-Djboss.home.dir=H` is handed to the module-loader helper, on
/// `H`.
pub proof fn theorem_module_loader_launch(
    java: JavaView,
    config: ConfigView,
    out_dir: Seq<char>,
    process: ProcessView,
    i: int,
    k: int,
    home: Seq<char>,
)
    requires
        "java"@.is_suffix_of(process.name),
        launches_jar_at(process.command_line, i),
        last_segment(process.command_line[i + 1]) == "jboss-modules.jar"@,
        0 <= k < process.command_line.len(),
        process.command_line[k] == "-Djboss.home.dir="@ + home,
        forall|j: int|
            0 <= j < k ==> !"-Djboss.home.dir"@.is_prefix_of(process.command_line[j]),
    ensures
        java_detection(java, config, out_dir, process) == Some(
            seq![java.module_loader_helper, out_dir, home],
        ),
{
    lemma_jar_argument_at(process.command_line, i);
    lemma_jboss_home_at(process.command_line, k, home);
}

/// A Java process that launches the JBoss Modules loader without a
/// `jboss.home.dir` system property is declined: the classpath is not
/// consulted in its place.
pub proof fn theorem_module_loader_without_home(
    java: JavaView,
    config: ConfigView,
    out_dir: Seq<char>,
    process: ProcessView,
    i: int,
)
    requires
        "java"@.is_suffix_of(process.name),
        launches_jar_at(process.command_line, i),
        last_segment(process.command_line[i + 1]) == "jboss-modules.jar"@,
        forall|j: int|
            0 <= j < process.command_line.len() ==> !"-Djboss.home.dir"@.is_prefix_of(
                process.command_line[j],
            ),
    ensures
        java_detection(java, config, out_dir, process) is None,
{
    lemma_jar_argument_at(process.command_line, i);
    lemma_first_index_is(
        process.command_line,
        has_prefix("-Djboss.home.dir"@),
        process.command_line.len() as int,
    );
}

/// The first configured entry that identifies a classpath-launched Java
/// process decides the answer: the first classpath entry that holds its jar
/// fragment is handed to the jar helper. Entries configured behind it are not
/// consulted, in whatever order the main classes stand on the command line.
pub proof fn theorem_first_configured_entry_wins(
    java: JavaView,
    config: ConfigView,
    out_dir: Seq<char>,
    process: ProcessView,
    i: int,
    k: int,
)
    requires
        "java"@.is_suffix_of(process.name),
        jar_argument(process.command_line) is None,
        gives_classpath_at(process.command_line, i),
        0 <= k < config.java.len(),
        identifies(
            config.java[k],
            process.command_line,
            fragments(process.command_line[i + 1], ':'),
        ),
        forall|j: int|
            0 <= j < k ==> !identifies(
                #[trigger] config.java[j],
                process.command_line,
                fragments(process.command_line[i + 1], ':'),
            ),
    ensures
        ({
            let jars = fragments(process.command_line[i + 1], ':');
            let m = first_index(jars, holds(config.java[k].main_jar));
            &&& 0 <= m < jars.len()
            &&& is_substring(config.java[k].main_jar, jars[m])
            &&& java_detection(java, config, out_dir, process) == Some(
                jar_action(java.jar_helper, out_dir, process.cwd, jars[m]),
            )
        }),
{
    let jars = fragments(process.command_line[i + 1], ':');
    lemma_classpath_argument_at(process.command_line, i);
    lemma_first_index_is(config.java, identifying(process.command_line, jars), k);
    lemma_first_index(jars, holds(config.java[k].main_jar));
}

/// A Java process that is given a classpath and no jar is handed to the jar
/// helper on the classpath entry that the configuration points to. When a
/// configured entry names a main class that is a token of the command line
/// and a jar fragment that the classpath entry at `m` is the first to hold,
/// and no entry configured before it identifies the process, the answer is
/// the jar helper on that classpath entry, resolved against the working
/// directory.
pub proof fn theorem_classpath_launch(
    java: JavaView,
    config: ConfigView,
    out_dir: Seq<char>,
    process: ProcessView,
    i: int,
    k: int,
    m: int,
)
    requires
        "java"@.is_suffix_of(process.name),
        jar_argument(process.command_line) is None,
        gives_classpath_at(process.command_line, i),
        0 <= k < config.java.len(),
        process.command_line.contains(config.java[k].main_class),
        0 <= m < fragments(process.command_line[i + 1], ':').len(),
        is_substring(config.java[k].main_jar, fragments(process.command_line[i + 1], ':')[m]),
        forall|j: int|
            0 <= j < m ==> !is_substring(
                config.java[k].main_jar,
                #[trigger] fragments(process.command_line[i + 1], ':')[j],
            ),
        forall|j: int|
            0 <= j < k ==> !identifies(
                #[trigger] config.java[j],
                process.command_line,
                fragments(process.command_line[i + 1], ':'),
            ),
    ensures
        java_detection(java, config, out_dir, process) == Some(
            seq![
                java.jar_helper,
                out_dir,
                resolve_jar(process.cwd, fragments(process.command_line[i + 1], ':')[m]),
            ],
        ),
{
    let jars = fragments(process.command_line[i + 1], ':');
    lemma_first_index_is(jars, holds(config.java[k].main_jar), m);
    theorem_first_configured_entry_wins(java, config, out_dir, process, i, k);
}

/// A classpath-launched Java process that no configured entry identifies is
/// declined.
pub proof fn theorem_unidentified_is_declined(
    java: JavaView,
    config: ConfigView,
    out_dir: Seq<char>,
    process: ProcessView,
    i: int,
)
    requires
        jar_argument(process.command_line) is None,
        gives_classpath_at(process.command_line, i),
        forall|j: int|
            0 <= j < config.java.len() ==> !identifies(
                #[trigger] config.java[j],
                process.command_line,
                fragments(process.command_line[i + 1], ':'),
            ),
    ensures
        java_detection(java, config, out_dir, process) is None,
{
    let jars = fragments(process.command_line[i + 1], ':');
    lemma_classpath_argument_at(process.command_line, i);
    lemma_first_index_is(
        config.java,
        identifying(process.command_line, jars),
        config.java.len() as int,
    );
}

/// A jar takes precedence over a classpath: once the command line of a Java
/// process launches a jar, the answer is [`jar_launch`] of that jar, which
/// reads no classpath, and it is the same under every configuration.
pub proof fn theorem_jar_precedes_classpath(
    java: JavaView,
    config: ConfigView,
    other_config: ConfigView,
    out_dir: Seq<char>,
    process: ProcessView,
    i: int,
)
    requires
        "java"@.is_suffix_of(process.name),
        launches_jar_at(process.command_line, i),
    ensures
        java_detection(java, config, out_dir, process) == jar_launch(
            java,
            out_dir,
            process,
            process.command_line[i + 1],
        ),
        java_detection(java, config, out_dir, process) == java_detection(
            java,
            other_config,
            out_dir,
            process,
        ),
{
    lemma_jar_argument_at(process.command_line, i);
}

} // verus!
