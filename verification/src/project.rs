//! Project linking: the `usermon.json` configuration, the search for it
//! through parent directories, and the detection of a workspace's stack.

use vstd::prelude::*;

use crate::client::DEFAULT_ENDPOINT;
use crate::text::{contains, contains_str, lemma_contains_middle};

verus! {

/// The file that links a directory to a Usermon project.
pub const PROJECT_CONFIG_FILE: &'static str = "usermon.json";

/// What `usermon.json` holds.
#[derive(Clone, Debug, PartialEq)]
pub struct ProjectConfig {
    pub project_id: String,
    pub project_slug: Option<String>,
    pub endpoint: String,
    pub ingest_key: Option<String>,
}

/// The endpoint stored when a project configuration names none.
pub fn default_endpoint() -> (r: String)
    ensures
        r@ == DEFAULT_ENDPOINT@,
{
    String::from_str(DEFAULT_ENDPOINT)
}

impl ProjectConfig {
    /// The configuration `usermon link` writes: the project given, else the
    /// directory's name, else `my-project`, which is also its slug; the
    /// endpoint given or the default one; the key given, if any.
    pub fn linked(
        project: Option<String>,
        dir_name: Option<String>,
        ingest_key: Option<String>,
        endpoint: Option<String>,
    ) -> (c: ProjectConfig)
        ensures
            project matches Some(p) ==> c.project_id == p,
            project is None && dir_name is Some ==> c.project_id == dir_name->0,
            project is None && dir_name is None ==> c.project_id@ == "my-project"@,
            c.project_slug matches Some(s) && s@ == c.project_id@,
            endpoint matches Some(e) ==> c.endpoint == e,
            endpoint is None ==> c.endpoint@ == DEFAULT_ENDPOINT@,
            c.ingest_key == ingest_key,
    {
        let project_id = match project {
            Some(p) => p,
            None => match dir_name {
                Some(d) => d,
                None => String::from_str("my-project"),
            },
        };
        let endpoint = match endpoint {
            Some(e) => e,
            None => default_endpoint(),
        };
        let slug = project_id.clone();
        ProjectConfig { project_id, project_slug: Some(slug), endpoint, ingest_key }
    }
}

impl ProjectConfig {
    /// How the project is named to the user: its slug, else its id.
    pub fn display_name(&self) -> (r: &str)
        ensures
            self.project_slug matches Some(s) ==> r@ == s@,
            self.project_slug is None ==> r@ == self.project_id@,
    {
        match &self.project_slug {
            Some(s) => s.as_str(),
            None => self.project_id.as_str(),
        }
    }
}

/// The key shown in generated setup snippets: the linked project's key, or
/// a placeholder.
pub fn sample_ingest_key(project: Option<&ProjectConfig>) -> (r: String)
    ensures
        (project matches Some(p) && p.ingest_key is Some) ==> r == project->0.ingest_key->0,
        !(project matches Some(p) && p.ingest_key is Some) ==> r@ == "um_YOUR_PROJECT_KEY"@,
{
    match project {
        Some(p) => match &p.ingest_key {
            Some(k) => k.clone(),
            None => String::from_str("um_YOUR_PROJECT_KEY"),
        },
        None => String::from_str("um_YOUR_PROJECT_KEY"),
    }
}

/// What the search for `usermon.json` does after looking at one directory.
#[derive(Clone, Debug, PartialEq)]
pub enum SearchStep {
    /// The directory holds a readable configuration: the search ends with it.
    Found(ProjectConfig),
    /// Look in the parent directory next.
    Ascend,
    /// The root was reached without a configuration.
    NotFound,
}

/// One step of the search, which goes from the start directory up through
/// its parents: `parsed` is the configuration read in the current directory
/// (none when the file is missing, unreadable or not valid), `has_parent`
/// whether the directory has a parent.
pub fn config_search_step(parsed: Option<ProjectConfig>, has_parent: bool) -> (r: SearchStep)
    ensures
        parsed matches Some(c) ==> r == SearchStep::Found(c),
        parsed is None && has_parent ==> r == SearchStep::Ascend,
        parsed is None && !has_parent ==> r == SearchStep::NotFound,
{
    match parsed {
        Some(c) => SearchStep::Found(c),
        None => if has_parent {
            SearchStep::Ascend
        } else {
            SearchStep::NotFound
        },
    }
}

/// The marker files of a workspace directory that decide its stack.
#[derive(Clone, Debug, PartialEq)]
pub struct ProjectFiles {
    /// `package.json`: absent, present but unreadable, or its text.
    pub package_json: Option<Option<String>>,
    pub pyproject_toml: bool,
    pub requirements_txt: bool,
    pub go_mod: bool,
    pub package_swift: bool,
    pub build_gradle_kts: bool,
    pub build_gradle: bool,
    pub cargo_toml: bool,
}

/// A workspace's technology stack.
#[derive(Clone, Copy, Debug, PartialEq, Eq, Structural)]
pub enum Framework {
    NextJs,
    React,
    Node,
    Python,
    Go,
    Swift,
    Kotlin,
    Rust,
    Unknown,
}

/// The stack of a workspace, by the first rule that applies: a
/// `package.json` that mentions `"next"` is Next.js, one that mentions
/// `"react"` is React, any other is Node; then Python (`pyproject.toml` or
/// `requirements.txt`), Go (`go.mod`), Swift (`Package.swift`), Kotlin
/// (`build.gradle.kts` or `build.gradle`), Rust (`Cargo.toml`).
pub open spec fn framework_of(f: ProjectFiles) -> Framework {
    match f.package_json {
        Some(content) => match content {
            Some(text) => if contains(text@, "\"next\""@) {
                Framework::NextJs
            } else if contains(text@, "\"react\""@) {
                Framework::React
            } else {
                Framework::Node
            },
            None => Framework::Node,
        },
        None => if f.pyproject_toml || f.requirements_txt {
            Framework::Python
        } else if f.go_mod {
            Framework::Go
        } else if f.package_swift {
            Framework::Swift
        } else if f.build_gradle_kts || f.build_gradle {
            Framework::Kotlin
        } else if f.cargo_toml {
            Framework::Rust
        } else {
            Framework::Unknown
        },
    }
}

/// The detection rules, stated by the marker files: any `package.json`
/// makes a JavaScript stack (Next.js when its text mentions `"next"`, else
/// React when it mentions `"react"`, else Node); without one, `pyproject.toml`
/// or `requirements.txt` makes Python, whatever else is present; then
/// `go.mod` Go, `Package.swift` Swift, a Gradle build Kotlin, `Cargo.toml`
/// Rust; with no marker the stack is unknown.
pub proof fn law_framework_rules(f: ProjectFiles)
    ensures
        f.package_json is None && (f.pyproject_toml || f.requirements_txt) ==> framework_of(f)
            == Framework::Python,
        f.package_json is None && !f.pyproject_toml && !f.requirements_txt && f.go_mod
            ==> framework_of(f) == Framework::Go,
        f.package_json is None && !f.pyproject_toml && !f.requirements_txt && !f.go_mod
            && f.package_swift ==> framework_of(f) == Framework::Swift,
        f.package_json is None && !f.pyproject_toml && !f.requirements_txt && !f.go_mod
            && !f.package_swift && (f.build_gradle_kts || f.build_gradle) ==> framework_of(f)
            == Framework::Kotlin,
        f.package_json is None && !f.pyproject_toml && !f.requirements_txt && !f.go_mod
            && !f.package_swift && !f.build_gradle_kts && !f.build_gradle && f.cargo_toml
            ==> framework_of(f) == Framework::Rust,
        f.package_json == Some(None::<String>) ==> framework_of(f) == Framework::Node,
        (f.package_json is Some && f.package_json->0 is Some) ==> ({
            let text = f.package_json->0->0@;
            &&& contains(text, "\"next\""@) ==> framework_of(f) == Framework::NextJs
            &&& !contains(text, "\"next\""@) && contains(text, "\"react\""@) ==> framework_of(f)
                == Framework::React
            &&& !contains(text, "\"next\""@) && !contains(text, "\"react\""@) ==> framework_of(f)
                == Framework::Node
        }),
        framework_of(f) == Framework::Unknown <==> (f.package_json is None && !f.pyproject_toml
            && !f.requirements_txt && !f.go_mod && !f.package_swift && !f.build_gradle_kts
            && !f.build_gradle && !f.cargo_toml),
{
}

/// Detects the stack of a workspace from its marker files.
pub fn detect_framework_from(files: &ProjectFiles) -> (r: Framework)
    ensures
        r == framework_of(*files),
        files.package_json is None && (files.pyproject_toml || files.requirements_txt) ==> r
            == Framework::Python,
        files.package_json == Some(None::<String>) ==> r == Framework::Node,
        (files.package_json is Some && files.package_json->0 is Some) ==> (r == Framework::NextJs
            <==> contains(files.package_json->0->0@, "\"next\""@)),
        files.package_json is Some ==> (r == Framework::NextJs || r == Framework::React || r
            == Framework::Node),
        files.package_json is None ==> (r != Framework::NextJs && r != Framework::React && r
            != Framework::Node),
        r == Framework::Unknown <==> (files.package_json is None && !files.pyproject_toml
            && !files.requirements_txt && !files.go_mod && !files.package_swift
            && !files.build_gradle_kts && !files.build_gradle && !files.cargo_toml),
{
    match &files.package_json {
        Some(content) => match content {
            Some(text) => {
                if contains_str(text.as_str(), "\"next\"") {
                    Framework::NextJs
                } else if contains_str(text.as_str(), "\"react\"") {
                    Framework::React
                } else {
                    Framework::Node
                }
            },
            None => Framework::Node,
        },
        None => {
            if files.pyproject_toml || files.requirements_txt {
                Framework::Python
            } else if files.go_mod {
                Framework::Go
            } else if files.package_swift {
                Framework::Swift
            } else if files.build_gradle_kts || files.build_gradle {
                Framework::Kotlin
            } else if files.cargo_toml {
                Framework::Rust
            } else {
                Framework::Unknown
            }
        },
    }
}

/// The name of a stack.
pub open spec fn framework_name(f: Framework) -> Seq<char> {
    match f {
        Framework::NextJs => "nextjs"@,
        Framework::React => "react"@,
        Framework::Node => "node"@,
        Framework::Python => "python"@,
        Framework::Go => "go"@,
        Framework::Swift => "swift"@,
        Framework::Kotlin => "kotlin"@,
        Framework::Rust => "rust"@,
        Framework::Unknown => "unknown"@,
    }
}

impl Framework {
    /// The name of the stack, as `usermon init` reports it.
    pub fn as_str(&self) -> (r: &'static str)
        ensures
            r@ == framework_name(*self),
    {
        match self {
            Framework::NextJs => "nextjs",
            Framework::React => "react",
            Framework::Node => "node",
            Framework::Python => "python",
            Framework::Go => "go",
            Framework::Swift => "swift",
            Framework::Kotlin => "kotlin",
            Framework::Rust => "rust",
            Framework::Unknown => "unknown",
        }
    }
}


/// The two steps `usermon init` prints for a stack: a labelled command to
/// install the SDK (or to link the directory), and a labelled setup text,
/// which is a code snippet or, for an unknown stack, another command.
#[derive(Clone, Debug, PartialEq)]
pub struct InitGuide {
    pub install_label: String,
    pub install_command: String,
    pub setup_label: String,
    pub setup_text: String,
    pub setup_is_code: bool,
}

/// The label of the first step.
pub open spec fn install_label(f: Framework) -> Seq<char> {
    match f {
        Framework::NextJs | Framework::React | Framework::Node | Framework::Python
        | Framework::Go => "1. Install SDK:"@,
        Framework::Swift => "1. Add SPM Dependency:"@,
        Framework::Kotlin => "1. Add to build.gradle.kts:"@,
        _ => "1. Add usermon config to this directory:"@,
    }
}

/// The command of the first step.
pub open spec fn install_command(f: Framework) -> Seq<char> {
    match f {
        Framework::NextJs | Framework::React | Framework::Node => "npm install usermon-sdk"@,
        Framework::Python => "pip install usermon-sdk"@,
        Framework::Go => "go get github.com/seridian-dev/usermon-sdk-go"@,
        Framework::Swift => "https://github.com/seridian-dev/usermon-sdk"@,
        Framework::Kotlin => "implementation(\"dev.usermon:usermon-sdk:0.1.0\")"@,
        _ => "usermon link"@,
    }
}

/// The label of the second step.
pub open spec fn setup_label(f: Framework) -> Seq<char> {
    match f {
        Framework::NextJs | Framework::React => "2. In your root entry layout / component:"@,
        Framework::Node => "2. In your server entry file:"@,
        Framework::Python => "2. In your application file:"@,
        Framework::Go => "2. In your main.go:"@,
        Framework::Swift => "2. In your App delegate / init:"@,
        Framework::Kotlin => "2. In Application.onCreate():"@,
        _ => "2. Send telemetry anytime:"@,
    }
}

/// The text of the second step: for a known stack, the setup snippet with
/// `key` inserted as the ingest key.
pub open spec fn setup_text(f: Framework, key: Seq<char>) -> Seq<char> {
    match f {
        Framework::NextJs | Framework::React => "   import { init } from 'usermon-sdk/browser';\n\n   init({\n     ingestKey: '"@
            + key + "',\n     release: '1.0.0',\n     replay: true,\n   });"@,
        Framework::Node => "   import { init, withSpan } from 'usermon-sdk/node';\n\n   init({ ingestKey: '"@
            + key + "' });"@,
        Framework::Python => "   import usermon\n\n   mon = usermon.init(ingest_key='"@ + key + "')"@,
        Framework::Go => "   import \"github.com/seridian-dev/usermon-sdk-go/usermon\"\n\n   client := usermon.New(\""@
            + key + "\")"@,
        Framework::Swift => "   import UsermonSDK\n\n   Usermon.configure(ingestKey: \""@ + key + "\")"@,
        Framework::Kotlin => "   import dev.usermon.sdk.Usermon\n\n   Usermon.configure(context = this, ingestKey = \""@
            + key + "\")"@,
        _ => "usermon send exception -m \"Test crash\""@,
    }
}

/// The install command of a stack: every JavaScript stack installs the npm
/// package, Python the PyPI package, Go the Go module, Swift the Swift
/// package, Kotlin the Gradle artifact; a stack without an SDK is told to
/// link the directory.
pub proof fn law_install_commands(f: Framework)
    ensures
        (f == Framework::NextJs || f == Framework::React || f == Framework::Node)
            ==> install_command(f) == "npm install usermon-sdk"@,
        f == Framework::Python ==> install_command(f) == "pip install usermon-sdk"@,
        f == Framework::Go ==> install_command(f)
            == "go get github.com/seridian-dev/usermon-sdk-go"@,
        f == Framework::Swift ==> install_command(f)
            == "https://github.com/seridian-dev/usermon-sdk"@,
        f == Framework::Kotlin ==> install_command(f)
            == "implementation(\"dev.usermon:usermon-sdk:0.1.0\")"@,
        (f == Framework::Rust || f == Framework::Unknown) ==> install_command(f)
            == "usermon link"@,
{
}

/// For every stack with an SDK, the setup snippet carries the ingest key
/// it is made with.
pub proof fn law_init_snippet_holds_key(f: Framework, key: Seq<char>)
    requires
        f != Framework::Rust,
        f != Framework::Unknown,
    ensures
        contains(setup_text(f, key), key),
{
    match f {
        Framework::NextJs | Framework::React => lemma_contains_middle(
            "   import { init } from 'usermon-sdk/browser';\n\n   init({\n     ingestKey: '"@,
            key,
            "',\n     release: '1.0.0',\n     replay: true,\n   });"@,
        ),
        Framework::Node => lemma_contains_middle(
            "   import { init, withSpan } from 'usermon-sdk/node';\n\n   init({ ingestKey: '"@,
            key,
            "' });"@,
        ),
        Framework::Python => lemma_contains_middle(
            "   import usermon\n\n   mon = usermon.init(ingest_key='"@,
            key,
            "')"@,
        ),
        Framework::Go => lemma_contains_middle(
            "   import \"github.com/seridian-dev/usermon-sdk-go/usermon\"\n\n   client := usermon.New(\""@,
            key,
            "\")"@,
        ),
        Framework::Swift => lemma_contains_middle(
            "   import UsermonSDK\n\n   Usermon.configure(ingestKey: \""@,
            key,
            "\")"@,
        ),
        Framework::Kotlin => lemma_contains_middle(
            "   import dev.usermon.sdk.Usermon\n\n   Usermon.configure(context = this, ingestKey = \""@,
            key,
            "\")"@,
        ),
        _ => {},
    }
}

fn wrap_key(before: &str, key: &str, after: &str) -> (r: String)
    ensures
        r@ == before@ + key@ + after@,
{
    let mut r = String::from_str(before);
    r.append(key);
    r.append(after);
    r
}

/// The setup instructions `usermon init` prints for a stack, with
/// `sample_key` as the ingest key in the snippet.
pub fn init_guide(framework: Framework, sample_key: &str) -> (g: InitGuide)
    ensures
        g.install_label@ == install_label(framework),
        g.install_command@ == install_command(framework),
        g.setup_label@ == setup_label(framework),
        g.setup_text@ == setup_text(framework, sample_key@),
        g.setup_is_code == !(framework == Framework::Rust || framework == Framework::Unknown),
        (framework == Framework::NextJs || framework == Framework::React || framework
            == Framework::Node) ==> g.install_command@ == "npm install usermon-sdk"@,
        framework == Framework::Python ==> g.install_command@ == "pip install usermon-sdk"@,
        g.setup_is_code ==> contains(g.setup_text@, sample_key@),
{
    proof {
        law_install_commands(framework);
        if framework != Framework::Rust && framework != Framework::Unknown {
            law_init_snippet_holds_key(framework, sample_key@);
        }
    }
    match framework {
        Framework::NextJs | Framework::React => InitGuide {
            install_label: String::from_str("1. Install SDK:"),
            install_command: String::from_str("npm install usermon-sdk"),
            setup_label: String::from_str("2. In your root entry layout / component:"),
            setup_text: wrap_key(
                "   import { init } from 'usermon-sdk/browser';\n\n   init({\n     ingestKey: '",
                sample_key,
                "',\n     release: '1.0.0',\n     replay: true,\n   });",
            ),
            setup_is_code: true,
        },
        Framework::Node => InitGuide {
            install_label: String::from_str("1. Install SDK:"),
            install_command: String::from_str("npm install usermon-sdk"),
            setup_label: String::from_str("2. In your server entry file:"),
            setup_text: wrap_key(
                "   import { init, withSpan } from 'usermon-sdk/node';\n\n   init({ ingestKey: '",
                sample_key,
                "' });",
            ),
            setup_is_code: true,
        },
        Framework::Python => InitGuide {
            install_label: String::from_str("1. Install SDK:"),
            install_command: String::from_str("pip install usermon-sdk"),
            setup_label: String::from_str("2. In your application file:"),
            setup_text: wrap_key(
                "   import usermon\n\n   mon = usermon.init(ingest_key='",
                sample_key,
                "')",
            ),
            setup_is_code: true,
        },
        Framework::Go => InitGuide {
            install_label: String::from_str("1. Install SDK:"),
            install_command: String::from_str("go get github.com/seridian-dev/usermon-sdk-go"),
            setup_label: String::from_str("2. In your main.go:"),
            setup_text: wrap_key(
                "   import \"github.com/seridian-dev/usermon-sdk-go/usermon\"\n\n   client := usermon.New(\"",
                sample_key,
                "\")",
            ),
            setup_is_code: true,
        },
        Framework::Swift => InitGuide {
            install_label: String::from_str("1. Add SPM Dependency:"),
            install_command: String::from_str("https://github.com/seridian-dev/usermon-sdk"),
            setup_label: String::from_str("2. In your App delegate / init:"),
            setup_text: wrap_key(
                "   import UsermonSDK\n\n   Usermon.configure(ingestKey: \"",
                sample_key,
                "\")",
            ),
            setup_is_code: true,
        },
        Framework::Kotlin => InitGuide {
            install_label: String::from_str("1. Add to build.gradle.kts:"),
            install_command: String::from_str("implementation(\"dev.usermon:usermon-sdk:0.1.0\")"),
            setup_label: String::from_str("2. In Application.onCreate():"),
            setup_text: wrap_key(
                "   import dev.usermon.sdk.Usermon\n\n   Usermon.configure(context = this, ingestKey = \"",
                sample_key,
                "\")",
            ),
            setup_is_code: true,
        },
        _ => InitGuide {
            install_label: String::from_str("1. Add usermon config to this directory:"),
            install_command: String::from_str("usermon link"),
            setup_label: String::from_str("2. Send telemetry anytime:"),
            setup_text: String::from_str("usermon send exception -m \"Test crash\""),
            setup_is_code: false,
        },
    }
}

} // verus!
