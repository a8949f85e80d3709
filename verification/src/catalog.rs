//! The marker catalog: the kinds of project, the package managers, and the
//! files and folders whose presence under a project root tells them apart.

use crate::text::same_text;
use vstd::prelude::*;
use vstd::string::*;

verus! {

/// The kind of project that a directory holds.
#[derive(Debug, Clone, Copy, PartialEq, Eq, Structural)]
pub enum ProjectType {
    Flutter,
    Android,
    Node,
    Python,
    Rust,
    Go,
    Other,
}

impl ProjectType {
    /// The tag by which the kind is known outside the library.
    pub open spec fn label(self) -> Seq<char> {
        match self {
            ProjectType::Flutter => "flutter"@,
            ProjectType::Android => "android"@,
            ProjectType::Node => "node"@,
            ProjectType::Python => "python"@,
            ProjectType::Rust => "rust"@,
            ProjectType::Go => "go"@,
            ProjectType::Other => "other"@,
        }
    }

    /// The kind that a tag stands for; a tag that names none is `Other`.
    pub open spec fn labelled(tag: Seq<char>) -> ProjectType {
        if tag == "flutter"@ {
            ProjectType::Flutter
        } else if tag == "android"@ {
            ProjectType::Android
        } else if tag == "node"@ {
            ProjectType::Node
        } else if tag == "python"@ {
            ProjectType::Python
        } else if tag == "rust"@ {
            ProjectType::Rust
        } else if tag == "go"@ {
            ProjectType::Go
        } else {
            ProjectType::Other
        }
    }

    /// The place of the kind in the order in which kinds are tried: a lower
    /// rank is tried first.
    pub open spec fn rank(self) -> nat {
        match self {
            ProjectType::Flutter => 0,
            ProjectType::Android => 1,
            ProjectType::Python => 2,
            ProjectType::Rust => 3,
            ProjectType::Go => 4,
            ProjectType::Node => 5,
            ProjectType::Other => 6,
        }
    }

    /// Whether the markers of a root show the signature of this kind. Every
    /// root shows that of `Other`.
    pub open spec fn signed_by(self, m: Markers) -> bool {
        match self {
            ProjectType::Flutter => m.pubspec_yaml,
            ProjectType::Android => (m.build_gradle || m.build_gradle_kts) && m.app_dir,
            ProjectType::Python => m.requirements_txt || m.pyproject_toml || m.manage_py,
            ProjectType::Rust => m.cargo_toml,
            ProjectType::Go => m.go_mod,
            ProjectType::Node => m.package_json,
            ProjectType::Other => true,
        }
    }

    /// The tag of the kind.
    pub fn name(self) -> (r: &'static str)
        ensures
            r@ == self.label(),
    {
        match self {
            ProjectType::Flutter => "flutter",
            ProjectType::Android => "android",
            ProjectType::Node => "node",
            ProjectType::Python => "python",
            ProjectType::Rust => "rust",
            ProjectType::Go => "go",
            ProjectType::Other => "other",
        }
    }

    /// The kind that `tag` stands for; a tag that names none is `Other`.
    pub fn from_name(tag: &str) -> (r: ProjectType)
        ensures
            r == ProjectType::labelled(tag@),
    {
        if same_text(tag, "flutter") {
            ProjectType::Flutter
        } else if same_text(tag, "android") {
            ProjectType::Android
        } else if same_text(tag, "node") {
            ProjectType::Node
        } else if same_text(tag, "python") {
            ProjectType::Python
        } else if same_text(tag, "rust") {
            ProjectType::Rust
        } else if same_text(tag, "go") {
            ProjectType::Go
        } else {
            ProjectType::Other
        }
    }
}

/// The package manager of a project with a node-style manifest.
#[derive(Debug, Clone, Copy, PartialEq, Eq, Structural)]
pub enum PackageManager {
    Npm,
    Yarn,
    Pnpm,
    Bun,
}

impl PackageManager {
    /// The name of the package manager, which is also its command.
    pub open spec fn label(self) -> Seq<char> {
        match self {
            PackageManager::Npm => "npm"@,
            PackageManager::Yarn => "yarn"@,
            PackageManager::Pnpm => "pnpm"@,
            PackageManager::Bun => "bun"@,
        }
    }

    /// The package manager that a name stands for; any other name stands
    /// for npm.
    pub open spec fn labelled(name: Seq<char>) -> PackageManager {
        if name == "yarn"@ {
            PackageManager::Yarn
        } else if name == "pnpm"@ {
            PackageManager::Pnpm
        } else if name == "bun"@ {
            PackageManager::Bun
        } else {
            PackageManager::Npm
        }
    }

    /// The colour of the badge that shows the package manager.
    pub open spec fn badge(self) -> Seq<char> {
        match self {
            PackageManager::Pnpm => "blue"@,
            PackageManager::Yarn => "pink"@,
            PackageManager::Bun => "orange"@,
            PackageManager::Npm => "default"@,
        }
    }

    /// The name of the package manager.
    pub fn name(self) -> (r: &'static str)
        ensures
            r@ == self.label(),
    {
        match self {
            PackageManager::Npm => "npm",
            PackageManager::Yarn => "yarn",
            PackageManager::Pnpm => "pnpm",
            PackageManager::Bun => "bun",
        }
    }

    /// The package manager that `name` stands for; any other name stands
    /// for npm.
    pub fn from_name(name: &str) -> (r: PackageManager)
        ensures
            r == PackageManager::labelled(name@),
    {
        if same_text(name, "yarn") {
            PackageManager::Yarn
        } else if same_text(name, "pnpm") {
            PackageManager::Pnpm
        } else if same_text(name, "bun") {
            PackageManager::Bun
        } else {
            PackageManager::Npm
        }
    }

    /// The colour of the badge that shows the package manager.
    pub fn badge_color(self) -> (r: &'static str)
        ensures
            r@ == self.badge(),
    {
        match self {
            PackageManager::Pnpm => "blue",
            PackageManager::Yarn => "pink",
            PackageManager::Bun => "orange",
            PackageManager::Npm => "default",
        }
    }
}

/// A file or folder whose presence under a project root is a signal.
#[derive(Debug, Clone, Copy, PartialEq, Eq, Structural)]
pub enum Marker {
    PubspecYaml,
    BuildGradle,
    BuildGradleKts,
    AppDir,
    RequirementsTxt,
    PyprojectToml,
    ManagePy,
    CargoToml,
    GoMod,
    PackageJson,
    PnpmLock,
    YarnLock,
    BunLock,
    PackageLock,
    AndroidManifest,
    JavaSources,
    GitDir,
    NodeModules,
}

impl Marker {
    /// The path of the marker below the project root.
    pub open spec fn relative_path(self) -> Seq<char> {
        match self {
            Marker::PubspecYaml => "pubspec.yaml"@,
            Marker::BuildGradle => "build.gradle"@,
            Marker::BuildGradleKts => "build.gradle.kts"@,
            Marker::AppDir => "app"@,
            Marker::RequirementsTxt => "requirements.txt"@,
            Marker::PyprojectToml => "pyproject.toml"@,
            Marker::ManagePy => "manage.py"@,
            Marker::CargoToml => "Cargo.toml"@,
            Marker::GoMod => "go.mod"@,
            Marker::PackageJson => "package.json"@,
            Marker::PnpmLock => "pnpm-lock.yaml"@,
            Marker::YarnLock => "yarn.lock"@,
            Marker::BunLock => "bun.lockb"@,
            Marker::PackageLock => "package-lock.json"@,
            Marker::AndroidManifest => "app/src/main/AndroidManifest.xml"@,
            Marker::JavaSources => "app/src/main/java"@,
            Marker::GitDir => ".git"@,
            Marker::NodeModules => "node_modules"@,
        }
    }

    /// Every marker, each once.
    pub open spec fn catalog() -> Seq<Marker> {
        seq![
            Marker::PubspecYaml,
            Marker::BuildGradle,
            Marker::BuildGradleKts,
            Marker::AppDir,
            Marker::RequirementsTxt,
            Marker::PyprojectToml,
            Marker::ManagePy,
            Marker::CargoToml,
            Marker::GoMod,
            Marker::PackageJson,
            Marker::PnpmLock,
            Marker::YarnLock,
            Marker::BunLock,
            Marker::PackageLock,
            Marker::AndroidManifest,
            Marker::JavaSources,
            Marker::GitDir,
            Marker::NodeModules,
        ]
    }

    /// The path of the marker below the project root, with `/` between its
    /// segments.
    pub fn path(self) -> (r: &'static str)
        ensures
            r@ == self.relative_path(),
    {
        match self {
            Marker::PubspecYaml => "pubspec.yaml",
            Marker::BuildGradle => "build.gradle",
            Marker::BuildGradleKts => "build.gradle.kts",
            Marker::AppDir => "app",
            Marker::RequirementsTxt => "requirements.txt",
            Marker::PyprojectToml => "pyproject.toml",
            Marker::ManagePy => "manage.py",
            Marker::CargoToml => "Cargo.toml",
            Marker::GoMod => "go.mod",
            Marker::PackageJson => "package.json",
            Marker::PnpmLock => "pnpm-lock.yaml",
            Marker::YarnLock => "yarn.lock",
            Marker::BunLock => "bun.lockb",
            Marker::PackageLock => "package-lock.json",
            Marker::AndroidManifest => "app/src/main/AndroidManifest.xml",
            Marker::JavaSources => "app/src/main/java",
            Marker::GitDir => ".git",
            Marker::NodeModules => "node_modules",
        }
    }

    /// Every marker, each once: what a caller has to look for under a root.
    pub fn all() -> (r: Vec<Marker>)
        ensures
            r@ == Marker::catalog(),
    {
        let r = vec![
            Marker::PubspecYaml,
            Marker::BuildGradle,
            Marker::BuildGradleKts,
            Marker::AppDir,
            Marker::RequirementsTxt,
            Marker::PyprojectToml,
            Marker::ManagePy,
            Marker::CargoToml,
            Marker::GoMod,
            Marker::PackageJson,
            Marker::PnpmLock,
            Marker::YarnLock,
            Marker::BunLock,
            Marker::PackageLock,
            Marker::AndroidManifest,
            Marker::JavaSources,
            Marker::GitDir,
            Marker::NodeModules,
        ];
        assert(r@ =~= Marker::catalog());
        r
    }
}

/// Which markers exist under a project root.
#[derive(Debug, Clone, Copy, PartialEq, Eq, Structural)]
pub struct Markers {
    pub pubspec_yaml: bool,
    pub build_gradle: bool,
    pub build_gradle_kts: bool,
    pub app_dir: bool,
    pub requirements_txt: bool,
    pub pyproject_toml: bool,
    pub manage_py: bool,
    pub cargo_toml: bool,
    pub go_mod: bool,
    pub package_json: bool,
    pub pnpm_lock: bool,
    pub yarn_lock: bool,
    pub bun_lock: bool,
    pub package_lock: bool,
    pub android_manifest: bool,
    pub java_sources: bool,
    pub git_dir: bool,
    pub node_modules: bool,
}

impl Markers {
    /// Whether `marker` exists under the root.
    pub open spec fn holds(self, marker: Marker) -> bool {
        match marker {
            Marker::PubspecYaml => self.pubspec_yaml,
            Marker::BuildGradle => self.build_gradle,
            Marker::BuildGradleKts => self.build_gradle_kts,
            Marker::AppDir => self.app_dir,
            Marker::RequirementsTxt => self.requirements_txt,
            Marker::PyprojectToml => self.pyproject_toml,
            Marker::ManagePy => self.manage_py,
            Marker::CargoToml => self.cargo_toml,
            Marker::GoMod => self.go_mod,
            Marker::PackageJson => self.package_json,
            Marker::PnpmLock => self.pnpm_lock,
            Marker::YarnLock => self.yarn_lock,
            Marker::BunLock => self.bun_lock,
            Marker::PackageLock => self.package_lock,
            Marker::AndroidManifest => self.android_manifest,
            Marker::JavaSources => self.java_sources,
            Marker::GitDir => self.git_dir,
            Marker::NodeModules => self.node_modules,
        }
    }

    /// The markers of a root that holds none.
    pub open spec fn empty() -> Markers {
        Markers {
            pubspec_yaml: false,
            build_gradle: false,
            build_gradle_kts: false,
            app_dir: false,
            requirements_txt: false,
            pyproject_toml: false,
            manage_py: false,
            cargo_toml: false,
            go_mod: false,
            package_json: false,
            pnpm_lock: false,
            yarn_lock: false,
            bun_lock: false,
            package_lock: false,
            android_manifest: false,
            java_sources: false,
            git_dir: false,
            node_modules: false,
        }
    }

    /// The markers of a root that holds none.
    pub fn none() -> (r: Markers)
        ensures
            r == Markers::empty(),
            forall|marker: Marker| !r.holds(marker),
    {
        Markers {
            pubspec_yaml: false,
            build_gradle: false,
            build_gradle_kts: false,
            app_dir: false,
            requirements_txt: false,
            pyproject_toml: false,
            manage_py: false,
            cargo_toml: false,
            go_mod: false,
            package_json: false,
            pnpm_lock: false,
            yarn_lock: false,
            bun_lock: false,
            package_lock: false,
            android_manifest: false,
            java_sources: false,
            git_dir: false,
            node_modules: false,
        }
    }

    /// Whether `marker` exists under the root.
    pub fn has(&self, marker: Marker) -> (r: bool)
        ensures
            r == self.holds(marker),
    {
        match marker {
            Marker::PubspecYaml => self.pubspec_yaml,
            Marker::BuildGradle => self.build_gradle,
            Marker::BuildGradleKts => self.build_gradle_kts,
            Marker::AppDir => self.app_dir,
            Marker::RequirementsTxt => self.requirements_txt,
            Marker::PyprojectToml => self.pyproject_toml,
            Marker::ManagePy => self.manage_py,
            Marker::CargoToml => self.cargo_toml,
            Marker::GoMod => self.go_mod,
            Marker::PackageJson => self.package_json,
            Marker::PnpmLock => self.pnpm_lock,
            Marker::YarnLock => self.yarn_lock,
            Marker::BunLock => self.bun_lock,
            Marker::PackageLock => self.package_lock,
            Marker::AndroidManifest => self.android_manifest,
            Marker::JavaSources => self.java_sources,
            Marker::GitDir => self.git_dir,
            Marker::NodeModules => self.node_modules,
        }
    }

    /// These markers with `marker` recorded as `present`.
    pub open spec fn with(self, marker: Marker, present: bool) -> Markers {
        match marker {
            Marker::PubspecYaml => Markers { pubspec_yaml: present, ..self },
            Marker::BuildGradle => Markers { build_gradle: present, ..self },
            Marker::BuildGradleKts => Markers { build_gradle_kts: present, ..self },
            Marker::AppDir => Markers { app_dir: present, ..self },
            Marker::RequirementsTxt => Markers { requirements_txt: present, ..self },
            Marker::PyprojectToml => Markers { pyproject_toml: present, ..self },
            Marker::ManagePy => Markers { manage_py: present, ..self },
            Marker::CargoToml => Markers { cargo_toml: present, ..self },
            Marker::GoMod => Markers { go_mod: present, ..self },
            Marker::PackageJson => Markers { package_json: present, ..self },
            Marker::PnpmLock => Markers { pnpm_lock: present, ..self },
            Marker::YarnLock => Markers { yarn_lock: present, ..self },
            Marker::BunLock => Markers { bun_lock: present, ..self },
            Marker::PackageLock => Markers { package_lock: present, ..self },
            Marker::AndroidManifest => Markers { android_manifest: present, ..self },
            Marker::JavaSources => Markers { java_sources: present, ..self },
            Marker::GitDir => Markers { git_dir: present, ..self },
            Marker::NodeModules => Markers { node_modules: present, ..self },
        }
    }

    /// These markers with `marker` recorded as `present`; what is known of
    /// the other markers stays.
    pub fn record(self, marker: Marker, present: bool) -> (r: Markers)
        ensures
            r == self.with(marker, present),
    {
        match marker {
            Marker::PubspecYaml => Markers { pubspec_yaml: present, ..self },
            Marker::BuildGradle => Markers { build_gradle: present, ..self },
            Marker::BuildGradleKts => Markers { build_gradle_kts: present, ..self },
            Marker::AppDir => Markers { app_dir: present, ..self },
            Marker::RequirementsTxt => Markers { requirements_txt: present, ..self },
            Marker::PyprojectToml => Markers { pyproject_toml: present, ..self },
            Marker::ManagePy => Markers { manage_py: present, ..self },
            Marker::CargoToml => Markers { cargo_toml: present, ..self },
            Marker::GoMod => Markers { go_mod: present, ..self },
            Marker::PackageJson => Markers { package_json: present, ..self },
            Marker::PnpmLock => Markers { pnpm_lock: present, ..self },
            Marker::YarnLock => Markers { yarn_lock: present, ..self },
            Marker::BunLock => Markers { bun_lock: present, ..self },
            Marker::PackageLock => Markers { package_lock: present, ..self },
            Marker::AndroidManifest => Markers { android_manifest: present, ..self },
            Marker::JavaSources => Markers { java_sources: present, ..self },
            Marker::GitDir => Markers { git_dir: present, ..self },
            Marker::NodeModules => Markers { node_modules: present, ..self },
        }
    }
}

} // verus!
