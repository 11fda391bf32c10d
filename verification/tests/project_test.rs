use usermon::project::{
    config_search_step, default_endpoint, detect_framework_from, init_guide, sample_ingest_key,
    Framework, ProjectConfig, ProjectFiles, SearchStep,
};

fn no_files() -> ProjectFiles {
    ProjectFiles {
        package_json: None,
        pyproject_toml: false,
        requirements_txt: false,
        go_mod: false,
        package_swift: false,
        build_gradle_kts: false,
        build_gradle: false,
        cargo_toml: false,
    }
}

#[test]
fn frameworks_are_detected_in_order() {
    let mut f = no_files();
    assert_eq!(detect_framework_from(&f), Framework::Unknown);
    f.cargo_toml = true;
    assert_eq!(detect_framework_from(&f), Framework::Rust);
    f.build_gradle = true;
    assert_eq!(detect_framework_from(&f), Framework::Kotlin);
    f.package_swift = true;
    assert_eq!(detect_framework_from(&f), Framework::Swift);
    f.go_mod = true;
    assert_eq!(detect_framework_from(&f), Framework::Go);
    f.requirements_txt = true;
    assert_eq!(detect_framework_from(&f), Framework::Python);
    f.package_json = Some(None);
    assert_eq!(detect_framework_from(&f), Framework::Node);
    f.package_json = Some(Some("{\"dependencies\":{\"react\":\"18\"}}".to_string()));
    assert_eq!(detect_framework_from(&f), Framework::React);
    f.package_json = Some(Some("{\"dependencies\":{\"react\":\"18\",\"next\":\"14\"}}".to_string()));
    assert_eq!(detect_framework_from(&f), Framework::NextJs);
    f.package_json = Some(Some("{\"name\":\"nextish\"}".to_string()));
    assert_eq!(detect_framework_from(&f), Framework::Node);
    assert_eq!(Framework::NextJs.as_str(), "nextjs");
    assert_eq!(Framework::Unknown.as_str(), "unknown");
}

#[test]
fn linked_configuration() {
    let c = ProjectConfig::linked(Some("proj".to_string()), Some("dir".to_string()), None, None);
    assert_eq!(c.project_id, "proj");
    assert_eq!(c.project_slug.as_deref(), Some("proj"));
    assert_eq!(c.endpoint, "https://ingest.usermon.dev");
    assert!(c.ingest_key.is_none());
    let c = ProjectConfig::linked(None, Some("dir".to_string()), Some("um_k".to_string()), Some("https://e".to_string()));
    assert_eq!(c.project_id, "dir");
    assert_eq!(c.endpoint, "https://e");
    assert_eq!(c.ingest_key.as_deref(), Some("um_k"));
    let c = ProjectConfig::linked(None, None, None, None);
    assert_eq!(c.project_id, "my-project");
    assert_eq!(c.display_name(), "my-project");
    assert_eq!(default_endpoint(), "https://ingest.usermon.dev");
}

#[test]
fn sample_key_prefers_the_linked_key() {
    assert_eq!(sample_ingest_key(None), "um_YOUR_PROJECT_KEY");
    let c = ProjectConfig::linked(None, None, None, None);
    assert_eq!(sample_ingest_key(Some(&c)), "um_YOUR_PROJECT_KEY");
    let c = ProjectConfig::linked(None, None, Some("um_abc".to_string()), None);
    assert_eq!(sample_ingest_key(Some(&c)), "um_abc");
}

#[test]
fn search_goes_up_until_found_or_root() {
    let c = ProjectConfig::linked(None, None, None, None);
    assert_eq!(config_search_step(Some(c.clone()), true), SearchStep::Found(c.clone()));
    assert_eq!(config_search_step(Some(c.clone()), false), SearchStep::Found(c));
    assert_eq!(config_search_step(None, true), SearchStep::Ascend);
    assert_eq!(config_search_step(None, false), SearchStep::NotFound);
}

#[test]
fn init_guides() {
    let g = init_guide(Framework::Python, "um_k");
    assert_eq!(g.install_command, "pip install usermon-sdk");
    assert_eq!(g.setup_text, "   import usermon\n\n   mon = usermon.init(ingest_key='um_k')");
    assert!(g.setup_is_code);
    let g = init_guide(Framework::Rust, "um_k");
    assert_eq!(g.install_command, "usermon link");
    assert!(!g.setup_is_code);
    let g = init_guide(Framework::React, "K");
    assert_eq!(
        g.setup_text,
        "   import { init } from 'usermon-sdk/browser';\n\n   init({\n     ingestKey: 'K',\n     release: '1.0.0',\n     replay: true,\n   });"
    );
    let g = init_guide(Framework::Kotlin, "K");
    assert_eq!(g.install_label, "1. Add to build.gradle.kts:");
}
