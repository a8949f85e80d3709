use devlaunch::catalog::{Marker, Markers, PackageManager, ProjectType};
use devlaunch::classify::{
    android_stack, detect_package_manager, detect_project_type, detect_tech_stack,
    get_project_icon, gradle_build_file, manifest_lists, manifest_stack, node_stack,
    python_stack, tech_stack_from, SourceTexts, TechStack,
};
use devlaunch::json::{parse_json, Json};

fn with(markers: &[Marker]) -> Markers {
    let mut m = Markers::none();
    for marker in markers {
        m = m.record(*marker, true);
    }
    m
}

fn no_texts() -> SourceTexts {
    SourceTexts { package_json: None, gradle: None, requirements: None, pyproject: None }
}

fn entry(name: &str, color: &str) -> TechStack {
    TechStack { name: name.to_string(), tech_type: color.to_string() }
}

fn stack_names(stack: &[TechStack]) -> Vec<String> {
    stack.iter().map(|t| t.name.clone()).collect()
}

#[test]
fn a_root_without_markers_is_other() {
    assert_eq!(detect_project_type(&Markers::none()), ProjectType::Other);
}

#[test]
fn a_root_without_markers_has_an_empty_stack() {
    let texts = SourceTexts {
        package_json: Some("{\"dependencies\": {\"react\": \"18\"}}".to_string()),
        gradle: Some("com.android kotlin compose".to_string()),
        requirements: Some("django flask fastapi".to_string()),
        pyproject: Some("django".to_string()),
    };
    assert_eq!(detect_tech_stack(&Markers::none(), &texts), Vec::<TechStack>::new());
    assert_eq!(detect_package_manager(&Markers::none()), None);
}

#[test]
fn a_bare_manifest_gives_a_package_manager_only_stack() {
    let markers = with(&[Marker::PackageJson]);
    let texts = SourceTexts { package_json: Some("{}".to_string()), ..no_texts() };
    assert_eq!(detect_project_type(&markers), ProjectType::Node);
    assert_eq!(detect_tech_stack(&markers, &texts), vec![entry("npm", "default")]);
}

#[test]
fn pubspec_beside_package_json_is_flutter() {
    let markers = with(&[Marker::PubspecYaml, Marker::PackageJson]);
    assert_eq!(detect_project_type(&markers), ProjectType::Flutter);
}

#[test]
fn flutter_wins_over_every_other_signature() {
    let markers = with(&[
        Marker::PackageJson,
        Marker::GoMod,
        Marker::CargoToml,
        Marker::ManagePy,
        Marker::BuildGradle,
        Marker::AppDir,
        Marker::PubspecYaml,
    ]);
    assert_eq!(detect_project_type(&markers), ProjectType::Flutter);
}

#[test]
fn project_types_follow_the_priority_order() {
    let all = [
        Marker::PackageJson,
        Marker::GoMod,
        Marker::CargoToml,
        Marker::PyprojectToml,
        Marker::BuildGradleKts,
        Marker::AppDir,
    ];
    assert_eq!(detect_project_type(&with(&all)), ProjectType::Android);
    assert_eq!(detect_project_type(&with(&all[..4])), ProjectType::Python);
    assert_eq!(detect_project_type(&with(&all[..3])), ProjectType::Rust);
    assert_eq!(detect_project_type(&with(&all[..2])), ProjectType::Go);
    assert_eq!(detect_project_type(&with(&all[..1])), ProjectType::Node);
}

#[test]
fn android_needs_the_gradle_file_and_the_app_folder() {
    assert_eq!(detect_project_type(&with(&[Marker::BuildGradle])), ProjectType::Other);
    assert_eq!(detect_project_type(&with(&[Marker::AppDir])), ProjectType::Other);
    assert_eq!(
        detect_project_type(&with(&[Marker::BuildGradle, Marker::AppDir])),
        ProjectType::Android
    );
    assert_eq!(
        detect_project_type(&with(&[Marker::BuildGradleKts, Marker::AppDir])),
        ProjectType::Android
    );
}

#[test]
fn python_is_known_by_any_of_three_files() {
    assert_eq!(detect_project_type(&with(&[Marker::RequirementsTxt])), ProjectType::Python);
    assert_eq!(detect_project_type(&with(&[Marker::PyprojectToml])), ProjectType::Python);
    assert_eq!(detect_project_type(&with(&[Marker::ManagePy])), ProjectType::Python);
}

#[test]
fn lockfiles_decide_the_package_manager_in_order() {
    let all = [
        Marker::PackageJson,
        Marker::PackageLock,
        Marker::BunLock,
        Marker::YarnLock,
        Marker::PnpmLock,
    ];
    assert_eq!(detect_package_manager(&with(&all)), Some(PackageManager::Pnpm));
    assert_eq!(detect_package_manager(&with(&all[..4])), Some(PackageManager::Yarn));
    assert_eq!(detect_package_manager(&with(&all[..3])), Some(PackageManager::Bun));
    assert_eq!(detect_package_manager(&with(&all[..2])), Some(PackageManager::Npm));
    assert_eq!(detect_package_manager(&with(&all[..1])), Some(PackageManager::Npm));
    assert_eq!(detect_package_manager(&with(&[Marker::GitDir])), None);
}

#[test]
fn a_lockfile_without_manifest_still_names_the_package_manager() {
    assert_eq!(detect_package_manager(&with(&[Marker::YarnLock])), Some(PackageManager::Yarn));
    assert_eq!(
        detect_tech_stack(&with(&[Marker::YarnLock]), &no_texts()),
        Vec::<TechStack>::new()
    );
}

#[test]
fn package_manager_and_project_type_names() {
    assert_eq!(PackageManager::Pnpm.name(), "pnpm");
    assert_eq!(PackageManager::Yarn.badge_color(), "pink");
    assert_eq!(PackageManager::Bun.badge_color(), "orange");
    assert_eq!(PackageManager::Npm.badge_color(), "default");
    assert_eq!(PackageManager::from_name("bun"), PackageManager::Bun);
    assert_eq!(PackageManager::from_name("anything"), PackageManager::Npm);
    assert_eq!(ProjectType::Flutter.name(), "flutter");
    assert_eq!(ProjectType::from_name("rust"), ProjectType::Rust);
    assert_eq!(ProjectType::from_name("Rust"), ProjectType::Other);
    for t in [
        ProjectType::Flutter,
        ProjectType::Android,
        ProjectType::Node,
        ProjectType::Python,
        ProjectType::Rust,
        ProjectType::Go,
        ProjectType::Other,
    ] {
        assert_eq!(ProjectType::from_name(t.name()), t);
    }
}

#[test]
fn markers_know_their_paths() {
    assert_eq!(Marker::all().len(), 18);
    assert_eq!(Marker::PnpmLock.path(), "pnpm-lock.yaml");
    assert_eq!(Marker::AndroidManifest.path(), "app/src/main/AndroidManifest.xml");
    let m = Markers::none().record(Marker::GoMod, true);
    for marker in Marker::all() {
        assert_eq!(m.has(marker), marker == Marker::GoMod);
    }
    assert_eq!(m.record(Marker::GoMod, false), Markers::none());
}

#[test]
fn react_native_comes_in_place_of_react() {
    let doc = parse_json(
        "{\"dependencies\": {\"react\": \"18\", \"react-native\": \"0.74\", \"expo\": \"51\"}}",
    )
    .unwrap();
    assert_eq!(
        manifest_stack(&doc),
        vec![entry("React Native", "blue"), entry("Expo", "default")]
    );
}

#[test]
fn manifest_rules_fire_in_their_fixed_order() {
    let doc = parse_json(
        "{\"devDependencies\": {\"typescript\": \"5\", \"vite\": \"5\", \"electron\": \"30\",
          \"@tauri-apps/cli\": \"2\", \"svelte\": \"4\", \"nuxt\": \"3\", \"next\": \"14\",
          \"vue\": \"3\", \"expo\": \"51\", \"react\": \"18\"},
          \"dependencies\": {\"fastify\": \"4\", \"express\": \"4\"}}",
    )
    .unwrap();
    assert_eq!(
        manifest_stack(&doc),
        vec![
            entry("React", "default"),
            entry("Expo", "default"),
            entry("Vue", "green"),
            entry("Next.js", "default"),
            entry("Nuxt", "green"),
            entry("Svelte", "orange"),
            entry("Express", "default"),
            entry("Fastify", "default"),
            entry("Tauri", "yellow"),
            entry("Electron", "blue"),
            entry("Vite", "purple"),
            entry("TypeScript", "blue"),
        ]
    );
}

#[test]
fn some_packages_count_in_one_table_only() {
    let doc = parse_json(
        "{\"devDependencies\": {\"express\": \"4\", \"fastify\": \"4\", \"@tauri-apps/api\": \"2\"},
          \"dependencies\": {\"vite\": \"5\", \"typescript\": \"5\", \"@tauri-apps/cli\": \"2\"}}",
    )
    .unwrap();
    assert_eq!(manifest_stack(&doc), Vec::<TechStack>::new());
    assert!(manifest_lists(&doc, "dependencies", "vite"));
    assert!(!manifest_lists(&doc, "devDependencies", "vite"));
    assert!(!manifest_lists(&doc, "scripts", "vite"));
}

#[test]
fn tables_that_are_no_objects_list_nothing() {
    let doc = parse_json("{\"dependencies\": [\"react\"], \"devDependencies\": \"vue\"}").unwrap();
    assert_eq!(manifest_stack(&doc), Vec::<TechStack>::new());
    let doc = parse_json("[1, 2]").unwrap();
    assert_eq!(manifest_stack(&doc), Vec::<TechStack>::new());
}

#[test]
fn a_manifest_that_is_no_json_leaves_the_package_manager() {
    let markers = with(&[Marker::PackageJson, Marker::PnpmLock]);
    let texts = SourceTexts { package_json: Some("{ not json".to_string()), ..no_texts() };
    assert_eq!(detect_tech_stack(&markers, &texts), vec![entry("pnpm", "blue")]);
    assert_eq!(detect_tech_stack(&markers, &no_texts()), vec![entry("pnpm", "blue")]);
    assert_eq!(node_stack(&markers, None), vec![entry("pnpm", "blue")]);
}

#[test]
fn flutter_gives_two_entries() {
    let markers = with(&[Marker::PubspecYaml]);
    assert_eq!(
        detect_tech_stack(&markers, &no_texts()),
        vec![entry("Flutter", "blue"), entry("Dart", "blue")]
    );
}

#[test]
fn gradle_text_refines_the_android_entries() {
    let markers = with(&[Marker::BuildGradle, Marker::JavaSources]);
    assert_eq!(android_stack(&markers, None), Vec::<TechStack>::new());
    assert_eq!(android_stack(&markers, Some("plugins {}")), Vec::<TechStack>::new());
    assert_eq!(
        android_stack(&markers, Some("id 'com.android.application'")),
        vec![entry("Android", "green")]
    );
    assert_eq!(
        android_stack(&markers, Some("com.android kotlin-android compose true")),
        vec![entry("Android", "green"), entry("Kotlin", "purple"), entry("Compose", "green")]
    );
    let no_java = with(&[Marker::BuildGradleKts, Marker::AndroidManifest]);
    assert_eq!(
        android_stack(&no_java, Some("")),
        vec![entry("Android", "green"), entry("Kotlin", "purple")]
    );
    assert_eq!(
        android_stack(&Markers::none(), Some("com.android")),
        Vec::<TechStack>::new()
    );
}

#[test]
fn the_kotlin_script_is_read_before_the_groovy_file() {
    assert_eq!(
        gradle_build_file(&with(&[Marker::BuildGradle, Marker::BuildGradleKts])),
        Some(Marker::BuildGradleKts)
    );
    assert_eq!(gradle_build_file(&with(&[Marker::BuildGradle])), Some(Marker::BuildGradle));
    assert_eq!(gradle_build_file(&Markers::none()), None);
}

#[test]
fn python_frameworks_are_found_in_lowered_text() {
    let markers = with(&[Marker::RequirementsTxt]);
    assert_eq!(python_stack(&markers, ""), vec![entry("Python", "yellow")]);
    assert_eq!(
        python_stack(&markers, "django==4\nflask\nfastapi"),
        vec![
            entry("Python", "yellow"),
            entry("Django", "green"),
            entry("Flask", "default"),
            entry("FastAPI", "green"),
        ]
    );
    assert_eq!(python_stack(&markers, "Django"), vec![entry("Python", "yellow")]);
    let managed = with(&[Marker::PyprojectToml, Marker::ManagePy]);
    assert_eq!(
        python_stack(&managed, ""),
        vec![entry("Python", "yellow"), entry("Django", "green")]
    );
    assert_eq!(python_stack(&with(&[Marker::ManagePy]), "django"), Vec::<TechStack>::new());
}

#[test]
fn requirement_files_are_lowered_before_the_search() {
    let markers = with(&[Marker::RequirementsTxt, Marker::PyprojectToml]);
    let texts = SourceTexts {
        requirements: Some("Django==4.2\nFLA".to_string()),
        pyproject: Some("SK = \"FastAPI\"".to_string()),
        ..no_texts()
    };
    assert_eq!(
        detect_tech_stack(&markers, &texts),
        vec![
            entry("Python", "yellow"),
            entry("Django", "green"),
            entry("Flask", "default"),
            entry("FastAPI", "green"),
        ]
    );
}

#[test]
fn the_whole_stack_keeps_the_order_of_the_rules() {
    let markers = with(&[
        Marker::GoMod,
        Marker::RequirementsTxt,
        Marker::CargoToml,
        Marker::BuildGradle,
        Marker::PubspecYaml,
        Marker::PackageJson,
        Marker::YarnLock,
    ]);
    let doc = parse_json("{\"dependencies\": {\"vue\": \"3\"}}").unwrap();
    let stack = tech_stack_from(&markers, Some(&doc), Some("com.android"), "flask");
    assert_eq!(
        stack_names(&stack),
        vec![
            "Vue", "yarn", "Flutter", "Dart", "Android", "Kotlin", "Rust", "Python", "Flask",
            "Go"
        ]
    );
    assert_eq!(stack[1], entry("yarn", "pink"));
    assert_eq!(stack[6], entry("Rust", "orange"));
    assert_eq!(stack[9], entry("Go", "blue"));
}

#[test]
fn entries_are_never_merged() {
    let doc = Json::Object(vec![(
        "dependencies".to_string(),
        Json::Object(vec![("electron".to_string(), Json::Null)]),
    )]);
    let markers = with(&[Marker::PackageJson, Marker::BunLock]);
    assert_eq!(
        tech_stack_from(&markers, Some(&doc), None, ""),
        vec![entry("Electron", "blue"), entry("bun", "orange")]
    );
}

#[test]
fn mobile_frameworks_outrank_everything() {
    let stack = vec![
        entry("Rust", "orange"),
        entry("Django", "green"),
        entry("Tauri", "yellow"),
        entry("Kotlin", "purple"),
        entry("Expo", "default"),
    ];
    assert_eq!(get_project_icon(&stack, &Markers::none()), "phone_iphone");
    assert_eq!(get_project_icon(&stack[..4].to_vec(), &Markers::none()), "phone_android");
    assert_eq!(get_project_icon(&stack[..3].to_vec(), &Markers::none()), "desktop_windows");
    assert_eq!(get_project_icon(&stack[..2].to_vec(), &Markers::none()), "dns");
    assert_eq!(get_project_icon(&stack[..1].to_vec(), &Markers::none()), "memory");
}

#[test]
fn web_frameworks_outrank_languages() {
    let stack = vec![entry("Go", "blue"), entry("Python", "yellow"), entry("Svelte", "orange")];
    assert_eq!(get_project_icon(&stack, &Markers::none()), "code");
    assert_eq!(get_project_icon(&stack[..2].to_vec(), &Markers::none()), "speed");
    assert_eq!(get_project_icon(&stack[1..2].to_vec(), &Markers::none()), "data_object");
}

#[test]
fn every_known_technology_has_its_icon() {
    let cases = [
        ("Flutter", "phone_iphone"),
        ("React Native", "phone_iphone"),
        ("Expo", "phone_iphone"),
        ("Android", "phone_android"),
        ("Kotlin", "phone_android"),
        ("Compose", "phone_android"),
        ("Tauri", "desktop_windows"),
        ("Electron", "desktop_windows"),
        ("Django", "dns"),
        ("Flask", "dns"),
        ("FastAPI", "dns"),
        ("Express", "dns"),
        ("Fastify", "dns"),
        ("React", "code"),
        ("Vue", "code"),
        ("Svelte", "code"),
        ("Next.js", "code"),
        ("Nuxt", "code"),
        ("Rust", "memory"),
        ("Python", "data_object"),
        ("Go", "speed"),
        ("Vite", "folder"),
        ("TypeScript", "folder"),
        ("npm", "folder"),
        ("Dart", "folder"),
    ];
    for (name, icon) in cases {
        assert_eq!(get_project_icon(&vec![entry(name, "default")], &Markers::none()), icon);
    }
}

#[test]
fn markers_decide_the_icon_where_the_stack_gives_none() {
    let none: Vec<TechStack> = vec![entry("npm", "default")];
    let all = [
        Marker::ManagePy,
        Marker::RequirementsTxt,
        Marker::CargoToml,
        Marker::PackageJson,
        Marker::PubspecYaml,
    ];
    assert_eq!(get_project_icon(&none, &with(&all)), "phone_iphone");
    assert_eq!(get_project_icon(&none, &with(&all[..4])), "code");
    assert_eq!(get_project_icon(&none, &with(&all[..3])), "memory");
    assert_eq!(get_project_icon(&none, &with(&all[..2])), "data_object");
    assert_eq!(get_project_icon(&none, &with(&all[..1])), "data_object");
    assert_eq!(get_project_icon(&none, &with(&[Marker::GoMod])), "folder");
    assert_eq!(get_project_icon(&Vec::new(), &Markers::none()), "folder");
}

#[test]
fn the_web_manifest_outranks_the_languages_among_the_markers() {
    let both = with(&[Marker::CargoToml, Marker::PackageJson]);
    assert_eq!(get_project_icon(&Vec::new(), &both), "code");
    assert_eq!(get_project_icon(&Vec::new(), &with(&[Marker::CargoToml])), "memory");
}
