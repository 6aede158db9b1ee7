//! The build-tool definitions: a named rule that ties marker-file patterns to
//! a build technology and a reference URL, and an ordered catalog of such
//! rules.  The catalog is assembled from the built-in definitions, from
//! definitions handed in by the caller, or from both, appended in order.

use vstd::prelude::*;

use crate::matcher::{def_ok, defs_ok, spec_is_glob_pattern};
use crate::{MeisterError, Result};

verus! {

/// The mathematical model of a [`BuildToolDef`]: each field as a sequence of
/// characters.
#[verifier::ext_equal]
pub struct DefModel {
    pub name: Seq<char>,
    pub build_files: Seq<Seq<char>>,
    pub url: Seq<char>,
}

/// One build-tool definition: the tool's name, the marker-file patterns that
/// reveal it, and the URL that documents it.
#[derive(Debug)]
pub struct BuildToolDef {
    pub name: String,
    pub build_files: Vec<String>,
    pub url: String,
}

impl View for BuildToolDef {
    type V = DefModel;

    open spec fn view(&self) -> DefModel {
        DefModel {
            name: self.name@,
            build_files: self.build_files.deep_view(),
            url: self.url@,
        }
    }
}

impl DeepView for BuildToolDef {
    type V = DefModel;

    open spec fn deep_view(&self) -> DefModel {
        self.view()
    }
}

impl Clone for BuildToolDef {
    fn clone(&self) -> (res: Self)
        ensures
            res@ == self@,
    {
        let mut files: Vec<String> = Vec::new();
        let mut i: usize = 0;
        while i < self.build_files.len()
            invariant
                0 <= i <= self.build_files.len(),
                files@.len() == i,
                forall|k: int| 0 <= k < i ==> files@[k]@ == self.build_files@[k]@,
            decreases self.build_files.len() - i,
        {
            files.push(self.build_files[i].clone());
            i = i + 1;
        }
        assert(files.deep_view() =~= self.build_files.deep_view());
        let res = BuildToolDef {
            name: self.name.clone(),
            build_files: files,
            url: self.url.clone(),
        };
        assert(res@ =~= self@);
        res
    }
}

impl BuildToolDef {
    /// Builds a definition from its parts.
    pub fn new(name: String, build_files: Vec<String>, url: String) -> (r: Self)
        ensures
            r@.name == name@,
            r@.build_files == build_files.deep_view(),
            r@.url == url@,
    {
        BuildToolDef { name, build_files, url }
    }
}

/// An ordered catalog of build-tool definitions.  Appending another catalog
/// keeps both orders and never removes a duplicate.
#[derive(Debug)]
pub struct BuildToolDefs {
    pub defs: Vec<BuildToolDef>,
}

impl View for BuildToolDefs {
    type V = Seq<DefModel>;

    open spec fn view(&self) -> Seq<DefModel> {
        self.defs.deep_view()
    }
}

impl BuildToolDefs {
    /// Builds a catalog from the given definitions, in their order.
    pub fn new(defs: Vec<BuildToolDef>) -> (r: BuildToolDefs)
        ensures
            r@ == defs.deep_view(),
    {
        BuildToolDefs { defs }
    }

    /// How many definitions the catalog holds.
    pub fn len(&self) -> (r: usize)
        ensures
            r == self@.len(),
    {
        self.defs.len()
    }

    /// Whether the catalog holds no definition.
    pub fn is_empty(&self) -> (r: bool)
        ensures
            r == (self@.len() == 0),
    {
        self.defs.is_empty()
    }

    /// The definitions, in catalog order.
    pub fn iter(&self) -> (r: &Vec<BuildToolDef>)
        ensures
            r.deep_view() == self@,
    {
        &self.defs
    }

    /// Appends every definition of `second` after this catalog's own, in order.
    pub fn extend(&mut self, second: BuildToolDefs)
        ensures
            final(self)@ == old(self)@ + second@,
    {
        let mut other = second;
        self.defs.append(&mut other.defs);
        assert(final(self)@ =~= old(self)@ + second@);
    }

    /// Moves every definition of `other` to the end of this catalog, in order,
    /// leaving `other` empty.
    pub fn append(&mut self, other: &mut BuildToolDefs)
        ensures
            final(self)@ == old(self)@ + old(other)@,
            final(other)@.len() == 0,
    {
        self.defs.append(&mut other.defs);
        assert(final(self)@ =~= old(self)@ + old(other)@);
        assert(final(other)@ =~= Seq::<DefModel>::empty());
    }

    /// The built-in catalog: exactly [`spec_default_defs`], the same
    /// definitions every call, and every one of its patterns compiles.
    pub fn parse_from_asset() -> (r: Result<BuildToolDefs>)
        ensures
            r is Ok,
            r->Ok_0@ == spec_default_defs(),
            r->Ok_0@.len() == 45,
            defs_ok(r->Ok_0@),
    {
        Ok(default_definitions())
    }
}

/// One catalog entry with a single marker pattern, as a model value.
pub open spec fn dm1(name: Seq<char>, file: Seq<char>, url: Seq<char>) -> DefModel {
    DefModel { name: name, build_files: seq![file], url: url }
}

/// One catalog entry with two marker patterns, as a model value.
pub open spec fn dm2(name: Seq<char>, f1: Seq<char>, f2: Seq<char>, url: Seq<char>) -> DefModel {
    DefModel { name: name, build_files: seq![f1, f2], url: url }
}

/// The built-in catalog's contents: 45 definitions, in this order.
pub open spec fn spec_default_defs() -> Seq<DefModel> {
    seq![
        dm1("Ant"@, "build.xml"@, "https://ant.apache.org/"@),
        dm2("Autotools"@, "configure.ac"@, "Makefile.am"@, "https://www.gnu.org/software/automake/"@),
        dm2("Bazel"@, "BUILD.bazel"@, "WORKSPACE"@, "https://bazel.build/"@),
        dm1("Boot"@, "build.boot"@, "https://boot-clj.github.io/"@),
        dm1("Buck"@, "BUCK"@, "https://buck.build/"@),
        dm1("Cabal"@, "cabal.project"@, "https://www.haskell.org/cabal/"@),
        dm1("Cake"@, "build.cake"@, "https://cakebuild.net/"@),
        dm1("Cargo"@, "Cargo.toml"@, "https://doc.rust-lang.org/cargo/"@),
        dm1("CMake"@, "CMakeLists.txt"@, "https://cmake.org/"@),
        dm1("CocoaPods"@, "Podfile"@, "https://cocoapods.org/"@),
        dm1("Composer"@, "composer.json"@, "https://getcomposer.org/"@),
        dm2("Conan"@, "conanfile.py"@, "conanfile.txt"@, "https://conan.io/"@),
        dm1("Deno"@, "deno.json"@, "https://deno.com/"@),
        dm2("Dub"@, "dub.json"@, "dub.sdl"@, "https://dub.pm/"@),
        dm1("Earthly"@, "Earthfile"@, "https://earthly.dev/"@),
        dm1("Elm"@, "elm.json"@, "https://elm-lang.org/"@),
        dm1("Fake"@, "fake.fsx"@, "https://fake.build/"@),
        dm1("Flit"@, "flit.ini"@, "https://flit.pypa.io/"@),
        dm1("Go"@, "go.mod"@, "https://go.dev/"@),
        dm2("Gradle"@, "build.gradle"@, "build.gradle.kts"@, "https://gradle.org/"@),
        dm1("Grunt"@, "Gruntfile.js"@, "https://gruntjs.com/"@),
        dm1("Gulp"@, "gulpfile.js"@, "https://gulpjs.com/"@),
        dm1("Jekyll"@, "_config.yml"@, "https://jekyllrb.com/"@),
        dm1("Just"@, "justfile"@, "https://just.systems/"@),
        dm1("Lake"@, "lakefile.lean"@, "https://lean-lang.org/"@),
        dm1("Leiningen"@, "project.clj"@, "https://leiningen.org/"@),
        dm2("Make"@, "Makefile"@, "GNUmakefile"@, "https://www.gnu.org/software/make/"@),
        dm1("Maven"@, "pom.xml"@, "https://maven.apache.org/"@),
        dm1("Meson"@, "meson.build"@, "https://mesonbuild.com/"@),
        dm1("Mill"@, "build.sc"@, "https://mill-build.org/"@),
        dm1("Mix"@, "mix.exs"@, "https://hexdocs.pm/mix/"@),
        dm1("Ninja"@, "build.ninja"@, "https://ninja-build.org/"@),
        dm2("Nix"@, "default.nix"@, "flake.nix"@, "https://nixos.org/"@),
        dm1("npm"@, "package.json"@, "https://www.npmjs.com/"@),
        dm1("Pants"@, "pants.toml"@, "https://www.pantsbuild.org/"@),
        dm2("Pip"@, "requirements.txt"@, "setup.py"@, "https://pip.pypa.io/"@),
        dm1("Pipenv"@, "Pipfile"@, "https://pipenv.pypa.io/"@),
        dm1("Poetry"@, "pyproject.toml"@, "https://python-poetry.org/"@),
        dm1("Rake"@, "Rakefile"@, "https://ruby.github.io/rake/"@),
        dm1("ReScript"@, "bsconfig.json"@, "https://rescript-lang.org/"@),
        dm1("sbt"@, "build.sbt"@, "https://www.scala-sbt.org/"@),
        dm1("SCons"@, "SConstruct"@, "https://scons.org/"@),
        dm1("Stack"@, "stack.yaml"@, "https://docs.haskellstack.org/"@),
        dm1("Vite"@, "vite.config.js"@, "https://vitejs.dev/"@),
        dm1("Yarn"@, "yarn.lock"@, "https://yarnpkg.com/"@),
    ]
}

/// Builds one definition whose marker is a plain file name.
fn def1(name: &str, file: &str, url: &str) -> (r: BuildToolDef)
    requires
        !spec_is_glob_pattern(file@),
    ensures
        r@.name == name@,
        r@.build_files == seq![file@],
        r@.url == url@,
        def_ok(r@),
{
    let files = vec![file.to_owned()];
    assert(files.deep_view() =~= seq![file@]);
    let r = BuildToolDef { name: name.to_owned(), build_files: files, url: url.to_owned() };
    assert(forall|i: int| 0 <= i < r@.build_files.len() ==> r@.build_files[i] == file@);
    r
}

/// Builds one definition whose two markers are plain file names.
fn def2(name: &str, f1: &str, f2: &str, url: &str) -> (r: BuildToolDef)
    requires
        !spec_is_glob_pattern(f1@),
        !spec_is_glob_pattern(f2@),
    ensures
        r@.name == name@,
        r@.build_files == seq![f1@, f2@],
        r@.url == url@,
        def_ok(r@),
{
    let files = vec![f1.to_owned(), f2.to_owned()];
    assert(files.deep_view() =~= seq![f1@, f2@]);
    let r = BuildToolDef { name: name.to_owned(), build_files: files, url: url.to_owned() };
    assert(forall|i: int|
        0 <= i < r@.build_files.len() ==> r@.build_files[i] == f1@ || r@.build_files[i] == f2@);
    r
}

/// The built-in build-tool catalog: exactly [`spec_default_defs`], each
/// marker a plain file name.
#[verifier::rlimit(100)]
fn default_definitions() -> (r: BuildToolDefs)
    ensures
        r@ == spec_default_defs(),
        r@.len() == 45,
        defs_ok(r@),
{
    proof {
        reveal_strlit("build.xml");
        reveal_strlit("configure.ac");
        reveal_strlit("Makefile.am");
        reveal_strlit("BUILD.bazel");
        reveal_strlit("WORKSPACE");
        reveal_strlit("build.boot");
        reveal_strlit("BUCK");
        reveal_strlit("cabal.project");
        reveal_strlit("build.cake");
        reveal_strlit("Cargo.toml");
        reveal_strlit("CMakeLists.txt");
        reveal_strlit("Podfile");
        reveal_strlit("composer.json");
        reveal_strlit("conanfile.py");
        reveal_strlit("conanfile.txt");
        reveal_strlit("deno.json");
        reveal_strlit("dub.json");
        reveal_strlit("dub.sdl");
        reveal_strlit("Earthfile");
        reveal_strlit("elm.json");
        reveal_strlit("fake.fsx");
        reveal_strlit("flit.ini");
        reveal_strlit("go.mod");
        reveal_strlit("build.gradle");
        reveal_strlit("build.gradle.kts");
        reveal_strlit("Gruntfile.js");
        reveal_strlit("gulpfile.js");
        reveal_strlit("_config.yml");
        reveal_strlit("justfile");
        reveal_strlit("lakefile.lean");
        reveal_strlit("project.clj");
        reveal_strlit("Makefile");
        reveal_strlit("GNUmakefile");
        reveal_strlit("pom.xml");
        reveal_strlit("meson.build");
        reveal_strlit("build.sc");
        reveal_strlit("mix.exs");
        reveal_strlit("build.ninja");
        reveal_strlit("default.nix");
        reveal_strlit("flake.nix");
        reveal_strlit("package.json");
        reveal_strlit("pants.toml");
        reveal_strlit("requirements.txt");
        reveal_strlit("setup.py");
        reveal_strlit("Pipfile");
        reveal_strlit("pyproject.toml");
        reveal_strlit("Rakefile");
        reveal_strlit("bsconfig.json");
        reveal_strlit("build.sbt");
        reveal_strlit("SConstruct");
        reveal_strlit("stack.yaml");
        reveal_strlit("vite.config.js");
        reveal_strlit("yarn.lock");
    }
    let v: Vec<BuildToolDef> = vec![
        def1("Ant", "build.xml", "https://ant.apache.org/"),
        def2("Autotools", "configure.ac", "Makefile.am", "https://www.gnu.org/software/automake/"),
        def2("Bazel", "BUILD.bazel", "WORKSPACE", "https://bazel.build/"),
        def1("Boot", "build.boot", "https://boot-clj.github.io/"),
        def1("Buck", "BUCK", "https://buck.build/"),
        def1("Cabal", "cabal.project", "https://www.haskell.org/cabal/"),
        def1("Cake", "build.cake", "https://cakebuild.net/"),
        def1("Cargo", "Cargo.toml", "https://doc.rust-lang.org/cargo/"),
        def1("CMake", "CMakeLists.txt", "https://cmake.org/"),
        def1("CocoaPods", "Podfile", "https://cocoapods.org/"),
        def1("Composer", "composer.json", "https://getcomposer.org/"),
        def2("Conan", "conanfile.py", "conanfile.txt", "https://conan.io/"),
        def1("Deno", "deno.json", "https://deno.com/"),
        def2("Dub", "dub.json", "dub.sdl", "https://dub.pm/"),
        def1("Earthly", "Earthfile", "https://earthly.dev/"),
        def1("Elm", "elm.json", "https://elm-lang.org/"),
        def1("Fake", "fake.fsx", "https://fake.build/"),
        def1("Flit", "flit.ini", "https://flit.pypa.io/"),
        def1("Go", "go.mod", "https://go.dev/"),
        def2("Gradle", "build.gradle", "build.gradle.kts", "https://gradle.org/"),
        def1("Grunt", "Gruntfile.js", "https://gruntjs.com/"),
        def1("Gulp", "gulpfile.js", "https://gulpjs.com/"),
        def1("Jekyll", "_config.yml", "https://jekyllrb.com/"),
        def1("Just", "justfile", "https://just.systems/"),
        def1("Lake", "lakefile.lean", "https://lean-lang.org/"),
        def1("Leiningen", "project.clj", "https://leiningen.org/"),
        def2("Make", "Makefile", "GNUmakefile", "https://www.gnu.org/software/make/"),
        def1("Maven", "pom.xml", "https://maven.apache.org/"),
        def1("Meson", "meson.build", "https://mesonbuild.com/"),
        def1("Mill", "build.sc", "https://mill-build.org/"),
        def1("Mix", "mix.exs", "https://hexdocs.pm/mix/"),
        def1("Ninja", "build.ninja", "https://ninja-build.org/"),
        def2("Nix", "default.nix", "flake.nix", "https://nixos.org/"),
        def1("npm", "package.json", "https://www.npmjs.com/"),
        def1("Pants", "pants.toml", "https://www.pantsbuild.org/"),
        def2("Pip", "requirements.txt", "setup.py", "https://pip.pypa.io/"),
        def1("Pipenv", "Pipfile", "https://pipenv.pypa.io/"),
        def1("Poetry", "pyproject.toml", "https://python-poetry.org/"),
        def1("Rake", "Rakefile", "https://ruby.github.io/rake/"),
        def1("ReScript", "bsconfig.json", "https://rescript-lang.org/"),
        def1("sbt", "build.sbt", "https://www.scala-sbt.org/"),
        def1("SCons", "SConstruct", "https://scons.org/"),
        def1("Stack", "stack.yaml", "https://docs.haskellstack.org/"),
        def1("Vite", "vite.config.js", "https://vitejs.dev/"),
        def1("Yarn", "yarn.lock", "https://yarnpkg.com/"),
    ];
    let r = BuildToolDefs { defs: v };
    proof {
        assert(r@ =~~= spec_default_defs());
        assert forall|i: int| 0 <= i < r@.len() implies def_ok(r@[i]) by {}
    }
    r
}

/// Appends every definition of `second` after those of `first`, keeping both
/// orders and removing nothing.
pub fn merge_build_tools(first: BuildToolDefs, second: BuildToolDefs) -> (r: BuildToolDefs)
    ensures
        r@ == first@ + second@,
{
    let mut result = first;
    let mut other = second;
    result.defs.append(&mut other.defs);
    assert(result@ =~= first@ + second@);
    result
}

/// Assembles the catalog a scan will use: the given base definitions, or the
/// built-in catalog when none are given, followed by the appended definitions
/// when any are given.  The base entries come first, appended entries last,
/// in their original order, with nothing removed.
pub fn construct(defs: Option<BuildToolDefs>, append: Option<BuildToolDefs>) -> (r: Result<
    BuildToolDefs,
>)
    ensures
        r is Ok,
        defs is Some && append is Some ==> r->Ok_0@ == defs->Some_0@ + append->Some_0@,
        defs is Some && append is None ==> r->Ok_0@ == defs->Some_0@,
        defs is None && append is Some ==> r->Ok_0@ == spec_default_defs() + append->Some_0@,
        defs is None && append is None ==> r->Ok_0@ == spec_default_defs(),
{
    let base = match defs {
        Some(d) => d,
        None => default_definitions(),
    };
    match append {
        Some(a) => Ok(merge_build_tools(base, a)),
        None => Ok(base),
    }
}

} // verus!
