//! The classifier: project type, package manager and technology stack of a
//! project root, from the markers it holds and the text of its manifests.

use crate::catalog::{Marker, Markers, PackageManager, ProjectType};
use crate::json::{json_document, parse_json, Json};
use crate::text::{contains_seq, contains_text, lowercase, same_text, text_or_empty, to_lowercase};
use vstd::prelude::*;
use vstd::string::*;

verus! {

/// One entry of a technology stack: the name of a technology and the colour
/// of the badge that shows it.
#[derive(Debug, Clone, PartialEq, Eq)]
pub struct TechStack {
    pub name: String,
    pub tech_type: String,
}

/// A stack entry as text: the name, then the colour.
pub type Badge = (Seq<char>, Seq<char>);

impl View for TechStack {
    type V = Badge;

    open spec fn view(&self) -> Badge {
        (self.name@, self.tech_type@)
    }
}

/// The entries of a stack as text, in order.
pub open spec fn badges(stack: Seq<TechStack>) -> Seq<Badge> {
    Seq::new(stack.len(), |i: int| stack[i]@)
}

/// The one entry `badge` where `fired` holds; no entry otherwise.
pub open spec fn when(fired: bool, badge: Badge) -> Seq<Badge> {
    if fired {
        seq![badge]
    } else {
        Seq::empty()
    }
}

/// The kind of project that the markers show: the first kind, in the order
/// flutter, android, python, rust, go, node, whose signature they hold;
/// `Other` where they hold none.
pub open spec fn project_type_of(m: Markers) -> ProjectType {
    if m.pubspec_yaml {
        ProjectType::Flutter
    } else if (m.build_gradle || m.build_gradle_kts) && m.app_dir {
        ProjectType::Android
    } else if m.requirements_txt || m.pyproject_toml || m.manage_py {
        ProjectType::Python
    } else if m.cargo_toml {
        ProjectType::Rust
    } else if m.go_mod {
        ProjectType::Go
    } else if m.package_json {
        ProjectType::Node
    } else {
        ProjectType::Other
    }
}

/// Classifies a project root by its markers. The kinds are tried in a fixed
/// order and the first whose signature the markers hold wins.
pub fn detect_project_type(markers: &Markers) -> (r: ProjectType)
    ensures
        r == project_type_of(*markers),
        r.signed_by(*markers),
        forall|earlier: ProjectType| earlier.rank() < r.rank() ==> !earlier.signed_by(*markers),
{
    if markers.pubspec_yaml {
        ProjectType::Flutter
    } else if (markers.build_gradle || markers.build_gradle_kts) && markers.app_dir {
        ProjectType::Android
    } else if markers.requirements_txt || markers.pyproject_toml || markers.manage_py {
        ProjectType::Python
    } else if markers.cargo_toml {
        ProjectType::Rust
    } else if markers.go_mod {
        ProjectType::Go
    } else if markers.package_json {
        ProjectType::Node
    } else {
        ProjectType::Other
    }
}

/// The package manager that the markers show: that of the first lockfile
/// present, in the order pnpm, yarn, bun, npm; npm where only the manifest
/// is present; none without lockfile and manifest.
pub open spec fn package_manager_of(m: Markers) -> Option<PackageManager> {
    if m.pnpm_lock {
        Some(PackageManager::Pnpm)
    } else if m.yarn_lock {
        Some(PackageManager::Yarn)
    } else if m.bun_lock {
        Some(PackageManager::Bun)
    } else if m.package_lock {
        Some(PackageManager::Npm)
    } else if m.package_json {
        Some(PackageManager::Npm)
    } else {
        None
    }
}

/// Tells the package manager of a project root by its lockfiles.
pub fn detect_package_manager(markers: &Markers) -> (r: Option<PackageManager>)
    ensures
        r == package_manager_of(*markers),
{
    if markers.pnpm_lock {
        Some(PackageManager::Pnpm)
    } else if markers.yarn_lock {
        Some(PackageManager::Yarn)
    } else if markers.bun_lock {
        Some(PackageManager::Bun)
    } else if markers.package_lock {
        Some(PackageManager::Npm)
    } else if markers.package_json {
        Some(PackageManager::Npm)
    } else {
        None
    }
}

/// Whether the object that `doc` holds under `section` has a member `name`.
pub open spec fn lists(doc: Json, section: Seq<char>, name: Seq<char>) -> bool {
    match doc.member(section) {
        Some(table) => table.member(name) is Some,
        None => false,
    }
}

/// Whether the manifest names `package` among its dependencies.
pub open spec fn depends_on(doc: Json, package: Seq<char>) -> bool {
    lists(doc, "dependencies"@, package)
}

/// Whether the manifest names `package` among its development dependencies.
pub open spec fn develops_with(doc: Json, package: Seq<char>) -> bool {
    lists(doc, "devDependencies"@, package)
}

/// Whether the manifest names `package` in either table.
pub open spec fn uses(doc: Json, package: Seq<char>) -> bool {
    depends_on(doc, package) || develops_with(doc, package)
}

/// The entries that a node-style manifest gives, in the order in which the
/// rules fire. React Native comes in place of React, never beside it.
pub open spec fn manifest_badges(doc: Json) -> Seq<Badge> {
    (if uses(doc, "react-native"@) {
        seq![("React Native"@, "blue"@)]
    } else {
        when(uses(doc, "react"@), ("React"@, "default"@))
    }) + when(uses(doc, "expo"@), ("Expo"@, "default"@)) + when(
        uses(doc, "vue"@),
        ("Vue"@, "green"@),
    ) + when(uses(doc, "next"@), ("Next.js"@, "default"@)) + when(
        uses(doc, "nuxt"@),
        ("Nuxt"@, "green"@),
    ) + when(uses(doc, "svelte"@), ("Svelte"@, "orange"@)) + when(
        depends_on(doc, "express"@),
        ("Express"@, "default"@),
    ) + when(depends_on(doc, "fastify"@), ("Fastify"@, "default"@)) + when(
        depends_on(doc, "@tauri-apps/api"@) || develops_with(doc, "@tauri-apps/cli"@),
        ("Tauri"@, "yellow"@),
    ) + when(uses(doc, "electron"@), ("Electron"@, "blue"@)) + when(
        develops_with(doc, "vite"@),
        ("Vite"@, "purple"@),
    ) + when(develops_with(doc, "typescript"@), ("TypeScript"@, "blue"@))
}

/// The entry for the package manager of the root, where it has one.
pub open spec fn package_manager_badges(m: Markers) -> Seq<Badge> {
    match package_manager_of(m) {
        Some(pm) => seq![(pm.label(), pm.badge())],
        None => Seq::empty(),
    }
}

/// The entries that the gradle build file gives. Without the text of the
/// file there is none. Android needs the plugin id in the text or the
/// manifest on disk; Kotlin is taken for granted where no Java sources
/// folder exists.
pub open spec fn android_badges(m: Markers, gradle: Option<Seq<char>>) -> Seq<Badge> {
    match gradle {
        Some(content) if m.build_gradle_kts || m.build_gradle => {
            if contains_seq(content, "com.android"@) || m.android_manifest {
                seq![("Android"@, "green"@)] + when(
                    contains_seq(content, "kotlin"@) || !m.java_sources,
                    ("Kotlin"@, "purple"@),
                ) + when(contains_seq(content, "compose"@), ("Compose"@, "green"@))
            } else {
                Seq::empty()
            }
        },
        _ => Seq::empty(),
    }
}

/// The entries that the Python requirement files give; `lowered` is their
/// text in lower case.
pub open spec fn python_badges(m: Markers, lowered: Seq<char>) -> Seq<Badge> {
    if m.requirements_txt || m.pyproject_toml {
        seq![("Python"@, "yellow"@)] + when(
            contains_seq(lowered, "django"@) || m.manage_py,
            ("Django"@, "green"@),
        ) + when(contains_seq(lowered, "flask"@), ("Flask"@, "default"@)) + when(
            contains_seq(lowered, "fastapi"@),
            ("FastAPI"@, "green"@),
        )
    } else {
        Seq::empty()
    }
}

/// The entries that the manifest block gives: those of the manifest where
/// it could be read, then the package manager. Without the manifest file
/// there is none.
pub open spec fn node_badges(m: Markers, manifest: Option<Json>) -> Seq<Badge> {
    if m.package_json {
        (match manifest {
            Some(doc) => manifest_badges(doc),
            None => Seq::empty(),
        }) + package_manager_badges(m)
    } else {
        Seq::empty()
    }
}

/// The Flutter entries.
pub open spec fn flutter_badges(m: Markers) -> Seq<Badge> {
    if m.pubspec_yaml {
        seq![("Flutter"@, "blue"@), ("Dart"@, "blue"@)]
    } else {
        Seq::empty()
    }
}

/// The technology stack of a root: every rule's entries in the fixed order
/// of the rules, nothing merged and nothing moved.
pub open spec fn tech_badges(
    m: Markers,
    manifest: Option<Json>,
    gradle: Option<Seq<char>>,
    lowered: Seq<char>,
) -> Seq<Badge> {
    node_badges(m, manifest) + flutter_badges(m) + android_badges(m, gradle) + when(
        m.cargo_toml,
        ("Rust"@, "orange"@),
    ) + python_badges(m, lowered) + when(m.go_mod, ("Go"@, "blue"@))
}

fn push_badge(stack: &mut Vec<TechStack>, name: &str, color: &str)
    ensures
        badges(final(stack)@) == badges(old(stack)@).push((name@, color@)),
{
    stack.push(TechStack { name: String::from_str(name), tech_type: String::from_str(color) });
    assert(badges(stack@) =~= badges(old(stack)@).push((name@, color@)));
}

fn push_when(stack: &mut Vec<TechStack>, fired: bool, name: &str, color: &str)
    ensures
        badges(final(stack)@) == badges(old(stack)@) + when(fired, (name@, color@)),
{
    if fired {
        push_badge(stack, name, color);
    }
    assert(badges(stack@) =~= badges(old(stack)@) + when(fired, (name@, color@)));
}

/// Whether the object that `doc` holds under `section` has a member `name`.
pub fn manifest_lists(doc: &Json, section: &str, name: &str) -> (r: bool)
    ensures
        r == lists(*doc, section@, name@),
{
    match doc.get(section) {
        Some(table) => table.get(name).is_some(),
        None => false,
    }
}

fn manifest_uses(doc: &Json, package: &str) -> (r: bool)
    ensures
        r == uses(*doc, package@),
{
    manifest_lists(doc, "dependencies", package) || manifest_lists(doc, "devDependencies", package)
}

fn extend_stack(stack: &mut Vec<TechStack>, more: Vec<TechStack>)
    ensures
        badges(final(stack)@) == badges(old(stack)@) + badges(more@),
{
    let mut rest = more;
    stack.append(&mut rest);
    assert(badges(stack@) =~= badges(old(stack)@) + badges(more@));
}

/// The entries that a node-style manifest gives, in the order in which the
/// rules fire.
pub fn manifest_stack(doc: &Json) -> (r: Vec<TechStack>)
    ensures
        badges(r@) == manifest_badges(*doc),
{
    let mut stack: Vec<TechStack> = Vec::new();
    assert(badges(stack@) =~= Seq::<Badge>::empty());
    if manifest_uses(doc, "react-native") {
        push_badge(&mut stack, "React Native", "blue");
        assert(badges(stack@) =~= seq![("React Native"@, "blue"@)]);
    } else {
        push_when(&mut stack, manifest_uses(doc, "react"), "React", "default");
        assert(badges(stack@) =~= when(uses(*doc, "react"@), ("React"@, "default"@)));
    }
    push_when(&mut stack, manifest_uses(doc, "expo"), "Expo", "default");
    push_when(&mut stack, manifest_uses(doc, "vue"), "Vue", "green");
    push_when(&mut stack, manifest_uses(doc, "next"), "Next.js", "default");
    push_when(&mut stack, manifest_uses(doc, "nuxt"), "Nuxt", "green");
    push_when(&mut stack, manifest_uses(doc, "svelte"), "Svelte", "orange");
    push_when(&mut stack, manifest_lists(doc, "dependencies", "express"), "Express", "default");
    push_when(&mut stack, manifest_lists(doc, "dependencies", "fastify"), "Fastify", "default");
    let tauri = manifest_lists(doc, "dependencies", "@tauri-apps/api") || manifest_lists(
        doc,
        "devDependencies",
        "@tauri-apps/cli",
    );
    push_when(&mut stack, tauri, "Tauri", "yellow");
    push_when(&mut stack, manifest_uses(doc, "electron"), "Electron", "blue");
    push_when(&mut stack, manifest_lists(doc, "devDependencies", "vite"), "Vite", "purple");
    push_when(&mut stack, manifest_lists(doc, "devDependencies", "typescript"), "TypeScript", "blue");
    stack
}

/// The entries that the gradle build file gives; `gradle` is its text, where
/// it could be read.
pub fn android_stack(markers: &Markers, gradle: Option<&str>) -> (r: Vec<TechStack>)
    ensures
        badges(r@) == android_badges(
            *markers,
            match gradle {
                Some(content) => Some(content@),
                None => None,
            },
        ),
{
    let mut stack: Vec<TechStack> = Vec::new();
    assert(badges(stack@) =~= Seq::<Badge>::empty());
    if markers.build_gradle_kts || markers.build_gradle {
        if let Some(content) = gradle {
            if contains_text(content, "com.android") || markers.android_manifest {
                push_badge(&mut stack, "Android", "green");
                assert(badges(stack@) =~= seq![("Android"@, "green"@)]);
                let kotlin = contains_text(content, "kotlin") || !markers.java_sources;
                push_when(&mut stack, kotlin, "Kotlin", "purple");
                push_when(&mut stack, contains_text(content, "compose"), "Compose", "green");
            }
        }
    }
    stack
}

/// The entries that the Python requirement files give; `lowered` is their
/// text in lower case.
pub fn python_stack(markers: &Markers, lowered: &str) -> (r: Vec<TechStack>)
    ensures
        badges(r@) == python_badges(*markers, lowered@),
{
    let mut stack: Vec<TechStack> = Vec::new();
    assert(badges(stack@) =~= Seq::<Badge>::empty());
    if markers.requirements_txt || markers.pyproject_toml {
        push_badge(&mut stack, "Python", "yellow");
        assert(badges(stack@) =~= seq![("Python"@, "yellow"@)]);
        let django = contains_text(lowered, "django") || markers.manage_py;
        push_when(&mut stack, django, "Django", "green");
        push_when(&mut stack, contains_text(lowered, "flask"), "Flask", "default");
        push_when(&mut stack, contains_text(lowered, "fastapi"), "FastAPI", "green");
    }
    stack
}

/// The entries of the manifest block; `manifest` is the manifest, where it
/// could be read as JSON.
pub fn node_stack(markers: &Markers, manifest: Option<&Json>) -> (r: Vec<TechStack>)
    ensures
        badges(r@) == node_badges(
            *markers,
            match manifest {
                Some(doc) => Some(*doc),
                None => None,
            },
        ),
{
    let mut stack: Vec<TechStack> = Vec::new();
    assert(badges(stack@) =~= Seq::<Badge>::empty());
    if markers.package_json {
        if let Some(doc) = manifest {
            stack = manifest_stack(doc);
        }
        match detect_package_manager(markers) {
            Some(pm) => {
                push_badge(&mut stack, pm.name(), pm.badge_color());
            },
            None => {
                assert(badges(stack@) + Seq::<Badge>::empty() =~= badges(stack@));
            },
        }
    }
    stack
}

/// The technology stack of a root from what was read there: its markers, its
/// manifest as JSON, the text of its gradle build file, and the text of its
/// Python requirement files in lower case.
pub fn tech_stack_from(
    markers: &Markers,
    manifest: Option<&Json>,
    gradle: Option<&str>,
    lowered: &str,
) -> (r: Vec<TechStack>)
    ensures
        badges(r@) == tech_badges(
            *markers,
            match manifest {
                Some(doc) => Some(*doc),
                None => None,
            },
            match gradle {
                Some(content) => Some(content@),
                None => None,
            },
            lowered@,
        ),
{
    let mut stack = node_stack(markers, manifest);
    if markers.pubspec_yaml {
        push_badge(&mut stack, "Flutter", "blue");
        push_badge(&mut stack, "Dart", "blue");
    }
    assert(badges(stack@) =~= node_badges(
        *markers,
        match manifest {
            Some(doc) => Some(*doc),
            None => None,
        },
    ) + flutter_badges(*markers));
    extend_stack(&mut stack, android_stack(markers, gradle));
    push_when(&mut stack, markers.cargo_toml, "Rust", "orange");
    extend_stack(&mut stack, python_stack(markers, lowered));
    push_when(&mut stack, markers.go_mod, "Go", "blue");
    stack
}

/// The text of the files that a caller reads under a project root; `None`
/// where a file is absent or could not be read.
#[derive(Debug, Clone, PartialEq, Eq)]
pub struct SourceTexts {
    /// `package.json`.
    pub package_json: Option<String>,
    /// The gradle build file that `gradle_build_file` names.
    pub gradle: Option<String>,
    /// `requirements.txt`.
    pub requirements: Option<String>,
    /// `pyproject.toml`.
    pub pyproject: Option<String>,
}

/// The gradle build file to read: the Kotlin script where it exists, else
/// the Groovy one, else none.
pub fn gradle_build_file(markers: &Markers) -> (r: Option<Marker>)
    ensures
        r == if markers.build_gradle_kts {
            Some(Marker::BuildGradleKts)
        } else if markers.build_gradle {
            Some(Marker::BuildGradle)
        } else {
            None
        },
{
    if markers.build_gradle_kts {
        Some(Marker::BuildGradleKts)
    } else if markers.build_gradle {
        Some(Marker::BuildGradle)
    } else {
        None
    }
}

/// The manifest that a text holds, where `serde_json` reads it as JSON.
pub open spec fn manifest_of(text: Option<String>) -> Option<Json> {
    match text {
        Some(t) => match json_document(t@) {
            Ok(doc) => Some(doc),
            Err(_) => None,
        },
        None => None,
    }
}

/// The text of an optional string.
pub open spec fn text_of(text: Option<String>) -> Option<Seq<char>> {
    match text {
        Some(t) => Some(t@),
        None => None,
    }
}

/// The text in which Python frameworks are looked for: the requirement
/// files one after the other, in lower case.
pub open spec fn framework_text(texts: SourceTexts) -> Seq<char> {
    lowercase(text_or_empty(texts.requirements) + text_or_empty(texts.pyproject))
}

/// The technology stack of a project root: the entries of every rule that
/// fires, in the fixed order of the rules. A manifest that is missing,
/// unreadable or no JSON gives no entry of its own and stops nothing else.
pub fn detect_tech_stack(markers: &Markers, texts: &SourceTexts) -> (r: Vec<TechStack>)
    ensures
        badges(r@) == tech_badges(
            *markers,
            manifest_of(texts.package_json),
            text_of(texts.gradle),
            framework_text(*texts),
        ),
{
    let manifest: Option<Json> = match &texts.package_json {
        Some(t) => match parse_json(t.as_str()) {
            Ok(doc) => Some(doc),
            Err(_) => None,
        },
        None => None,
    };
    let mut frameworks = String::new();
    if let Some(t) = &texts.requirements {
        frameworks.append(t.as_str());
    }
    if let Some(t) = &texts.pyproject {
        frameworks.append(t.as_str());
    }
    assert(frameworks@ =~= text_or_empty(texts.requirements) + text_or_empty(texts.pyproject));
    let lowered = to_lowercase(frameworks.as_str());
    let gradle: Option<&str> = match &texts.gradle {
        Some(t) => Some(t.as_str()),
        None => None,
    };
    tech_stack_from(markers, manifest.as_ref(), gradle, lowered.as_str())
}

/// A root without any marker is of kind `Other` and has an empty technology
/// stack, whatever its files hold.
pub proof fn lemma_no_marker_no_signal(
    m: Markers,
    manifest: Option<Json>,
    gradle: Option<Seq<char>>,
    lowered: Seq<char>,
)
    requires
        forall|marker: Marker| !m.holds(marker),
    ensures
        project_type_of(m) == ProjectType::Other,
        package_manager_of(m) is None,
        tech_badges(m, manifest, gradle, lowered) == Seq::<Badge>::empty(),
        tech_badges(m, manifest, gradle, lowered) == Seq::<Badge>::empty() || tech_badges(
            m,
            manifest,
            gradle,
            lowered,
        ) == package_manager_badges(m),
{
    assert(!m.holds(Marker::PubspecYaml));
    assert(!m.holds(Marker::BuildGradle));
    assert(!m.holds(Marker::BuildGradleKts));
    assert(!m.holds(Marker::RequirementsTxt));
    assert(!m.holds(Marker::PyprojectToml));
    assert(!m.holds(Marker::ManagePy));
    assert(!m.holds(Marker::CargoToml));
    assert(!m.holds(Marker::GoMod));
    assert(!m.holds(Marker::PackageJson));
    assert(!m.holds(Marker::PnpmLock));
    assert(!m.holds(Marker::YarnLock));
    assert(!m.holds(Marker::BunLock));
    assert(!m.holds(Marker::PackageLock));
    assert(tech_badges(m, manifest, gradle, lowered) =~= Seq::<Badge>::empty());
}

/// A root with only a node-style manifest whose tables name no known
/// package has the package manager as its whole stack.
pub proof fn lemma_bare_manifest_stack(m: Markers, doc: Json, gradle: Option<Seq<char>>, lowered: Seq<char>)
    requires
        m.package_json,
        !m.pubspec_yaml,
        !m.build_gradle,
        !m.build_gradle_kts,
        !m.cargo_toml,
        !m.requirements_txt,
        !m.pyproject_toml,
        !m.go_mod,
        manifest_badges(doc) == Seq::<Badge>::empty(),
    ensures
        tech_badges(m, Some(doc), gradle, lowered) == package_manager_badges(m),
        package_manager_badges(m).len() == 1,
{
    assert(tech_badges(m, Some(doc), gradle, lowered) =~= package_manager_badges(m));
}

/// Flutter wins over every other kind: a root with `pubspec.yaml` is a
/// Flutter project whatever else it holds.
pub proof fn lemma_flutter_first(m: Markers)
    requires
        m.pubspec_yaml,
    ensures
        project_type_of(m) == ProjectType::Flutter,
        project_type_of(m) != ProjectType::Node,
{
}

/// First match wins: the kind of a root is the one kind whose signature the
/// markers hold while they hold that of no kind tried before it.
pub proof fn lemma_first_match_wins(m: Markers, t: ProjectType)
    ensures
        project_type_of(m) == t <==> (t.signed_by(m) && forall|earlier: ProjectType|
            earlier.rank() < t.rank() ==> !earlier.signed_by(m)),
{
    let r = project_type_of(m);
    assert(r.signed_by(m));
    if t.signed_by(m) && (forall|earlier: ProjectType|
        earlier.rank() < t.rank() ==> !earlier.signed_by(m)) {
        if r.rank() < t.rank() {
            assert(!r.signed_by(m));
        }
        assert(forall|earlier: ProjectType| earlier.rank() < r.rank() ==> !earlier.signed_by(m));
        if t.rank() < r.rank() {
            assert(!t.signed_by(m));
        }
        assert(r.rank() == t.rank());
    }
}

/// The groups of technologies that decide a project's icon, from the one
/// that outranks all others to the one that all others outrank.
#[derive(Debug, Clone, Copy, PartialEq, Eq, Structural)]
pub enum IconTier {
    /// Flutter, React Native, Expo.
    Mobile,
    /// Android, Kotlin, Compose.
    AndroidNative,
    /// Tauri, Electron.
    DesktopShell,
    /// Django, Flask, FastAPI, Express, Fastify.
    Backend,
    /// React, Vue, Svelte, Next.js, Nuxt.
    WebFramework,
    /// Rust, Python, Go.
    Language,
}

/// The icon that the technology `name` gives within `tier`, where it belongs
/// to that tier.
pub open spec fn tier_icon(tier: IconTier, name: Seq<char>) -> Option<Seq<char>> {
    match tier {
        IconTier::Mobile => if name == "Flutter"@ || name == "React Native"@ || name == "Expo"@ {
            Some("phone_iphone"@)
        } else {
            None
        },
        IconTier::AndroidNative => if name == "Android"@ || name == "Kotlin"@ || name
            == "Compose"@ {
            Some("phone_android"@)
        } else {
            None
        },
        IconTier::DesktopShell => if name == "Tauri"@ || name == "Electron"@ {
            Some("desktop_windows"@)
        } else {
            None
        },
        IconTier::Backend => if name == "Django"@ || name == "Flask"@ || name == "FastAPI"@
            || name == "Express"@ || name == "Fastify"@ {
            Some("dns"@)
        } else {
            None
        },
        IconTier::WebFramework => if name == "React"@ || name == "Vue"@ || name == "Svelte"@
            || name == "Next.js"@ || name == "Nuxt"@ {
            Some("code"@)
        } else {
            None
        },
        IconTier::Language => if name == "Rust"@ {
            Some("memory"@)
        } else if name == "Python"@ {
            Some("data_object"@)
        } else if name == "Go"@ {
            Some("speed"@)
        } else {
            None
        },
    }
}

/// The icon of the first entry of the stack that belongs to `tier`.
pub open spec fn first_in_tier(stack: Seq<Badge>, tier: IconTier) -> Option<Seq<char>>
    decreases stack.len(),
{
    if stack.len() == 0 {
        None
    } else {
        match tier_icon(tier, stack[0].0) {
            Some(icon) => Some(icon),
            None => first_in_tier(stack.drop_first(), tier),
        }
    }
}

/// The icon that the stack gives: that of the highest tier with an entry in
/// the stack, and within the tier that of its first entry.
pub open spec fn stack_icon(stack: Seq<Badge>) -> Option<Seq<char>> {
    if first_in_tier(stack, IconTier::Mobile) is Some {
        first_in_tier(stack, IconTier::Mobile)
    } else if first_in_tier(stack, IconTier::AndroidNative) is Some {
        first_in_tier(stack, IconTier::AndroidNative)
    } else if first_in_tier(stack, IconTier::DesktopShell) is Some {
        first_in_tier(stack, IconTier::DesktopShell)
    } else if first_in_tier(stack, IconTier::Backend) is Some {
        first_in_tier(stack, IconTier::Backend)
    } else if first_in_tier(stack, IconTier::WebFramework) is Some {
        first_in_tier(stack, IconTier::WebFramework)
    } else {
        first_in_tier(stack, IconTier::Language)
    }
}

/// The icon that the markers give where the stack gives none. The markers
/// are tried in the order of the tiers: the mobile framework first, then
/// the web manifest, then the languages.
pub open spec fn marker_icon(m: Markers) -> Seq<char> {
    if m.pubspec_yaml {
        "phone_iphone"@
    } else if m.package_json {
        "code"@
    } else if m.cargo_toml {
        "memory"@
    } else if m.requirements_txt || m.manage_py {
        "data_object"@
    } else {
        "folder"@
    }
}

/// The icon of a project.
pub open spec fn icon_of(stack: Seq<Badge>, m: Markers) -> Seq<char> {
    match stack_icon(stack) {
        Some(icon) => icon,
        None => marker_icon(m),
    }
}

fn icon_in_tier(tier: IconTier, name: &str) -> (r: Option<&'static str>)
    ensures
        match r {
            Some(icon) => tier_icon(tier, name@) == Some(icon@),
            None => tier_icon(tier, name@) is None,
        },
{
    match tier {
        IconTier::Mobile => if same_text(name, "Flutter") || same_text(name, "React Native")
            || same_text(name, "Expo") {
            Some("phone_iphone")
        } else {
            None
        },
        IconTier::AndroidNative => if same_text(name, "Android") || same_text(name, "Kotlin")
            || same_text(name, "Compose") {
            Some("phone_android")
        } else {
            None
        },
        IconTier::DesktopShell => if same_text(name, "Tauri") || same_text(name, "Electron") {
            Some("desktop_windows")
        } else {
            None
        },
        IconTier::Backend => if same_text(name, "Django") || same_text(name, "Flask")
            || same_text(name, "FastAPI") || same_text(name, "Express") || same_text(
            name,
            "Fastify",
        ) {
            Some("dns")
        } else {
            None
        },
        IconTier::WebFramework => if same_text(name, "React") || same_text(name, "Vue")
            || same_text(name, "Svelte") || same_text(name, "Next.js") || same_text(
            name,
            "Nuxt",
        ) {
            Some("code")
        } else {
            None
        },
        IconTier::Language => if same_text(name, "Rust") {
            Some("memory")
        } else if same_text(name, "Python") {
            Some("data_object")
        } else if same_text(name, "Go") {
            Some("speed")
        } else {
            None
        },
    }
}

fn first_icon_in_tier(stack: &Vec<TechStack>, tier: IconTier) -> (r: Option<&'static str>)
    ensures
        match r {
            Some(icon) => first_in_tier(badges(stack@), tier) == Some(icon@),
            None => first_in_tier(badges(stack@), tier) is None,
        },
{
    let mut i: usize = 0;
    assert(badges(stack@).skip(0) =~= badges(stack@));
    while i < stack.len()
        invariant
            i <= stack.len(),
            first_in_tier(badges(stack@), tier) == first_in_tier(badges(stack@).skip(i as int), tier),
        decreases stack.len() - i,
    {
        assert(badges(stack@).skip(i as int).drop_first() =~= badges(stack@).skip(i + 1));
        assert(badges(stack@).skip(i as int)[0] == stack@[i as int]@);
        match icon_in_tier(tier, stack[i].name.as_str()) {
            Some(icon) => {
                return Some(icon);
            },
            None => {},
        }
        i = i + 1;
    }
    None
}

/// Picks the icon of a project. Mobile frameworks outrank Android-native
/// technologies, which outrank desktop shells, backend frameworks, web
/// frameworks and bare languages, in that order; where the stack holds none
/// of them the markers decide in the same order, and `folder` is what is
/// left.
pub fn get_project_icon(tech_stack: &Vec<TechStack>, markers: &Markers) -> (r: String)
    ensures
        r@ == icon_of(badges(tech_stack@), *markers),
{
    if let Some(icon) = first_icon_in_tier(tech_stack, IconTier::Mobile) {
        return String::from_str(icon);
    }
    if let Some(icon) = first_icon_in_tier(tech_stack, IconTier::AndroidNative) {
        return String::from_str(icon);
    }
    if let Some(icon) = first_icon_in_tier(tech_stack, IconTier::DesktopShell) {
        return String::from_str(icon);
    }
    if let Some(icon) = first_icon_in_tier(tech_stack, IconTier::Backend) {
        return String::from_str(icon);
    }
    if let Some(icon) = first_icon_in_tier(tech_stack, IconTier::WebFramework) {
        return String::from_str(icon);
    }
    if let Some(icon) = first_icon_in_tier(tech_stack, IconTier::Language) {
        return String::from_str(icon);
    }
    let icon = if markers.pubspec_yaml {
        "phone_iphone"
    } else if markers.package_json {
        "code"
    } else if markers.cargo_toml {
        "memory"
    } else if markers.requirements_txt || markers.manage_py {
        "data_object"
    } else {
        "folder"
    };
    String::from_str(icon)
}

} // verus!
