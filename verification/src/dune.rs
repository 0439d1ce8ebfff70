//! Building OCaml code with dune from a build script: the directories the
//! build uses, the command line it runs, and which of the files it finds
//! are object files. Running the command and reading directories is the
//! caller's part.

use vstd::prelude::*;
use vstd::string::StringExecFns;

verus! {

/// How dune is run.
#[derive(Clone, Copy, Debug, PartialEq, Eq, Structural)]
pub enum DuneInvocation {
    /// `dune` found on the `PATH`.
    System,
    /// `opam exec -- dune`.
    OpamExec,
}

/// The settings of a dune build.
pub struct DuneBuilder {
    dune_project_dir: String,
    dune_build_dir: String,
    ocaml_build_dir: String,
    profile: String,
    dune_args: Vec<String>,
    dune_invocation: DuneInvocation,
}

/// A [`DuneBuilder`] as character sequences.
pub struct DuneBuilderView {
    pub dune_project_dir: Seq<char>,
    pub dune_build_dir: Seq<char>,
    pub ocaml_build_dir: Seq<char>,
    pub profile: Seq<char>,
    pub dune_args: Seq<Seq<char>>,
    pub dune_invocation: DuneInvocation,
}

/// The views of a vector of strings.
pub open spec fn strings_view(v: Seq<String>) -> Seq<Seq<char>> {
    v.map_values(|s: String| s@)
}

impl View for DuneBuilder {
    type V = DuneBuilderView;

    closed spec fn view(&self) -> DuneBuilderView {
        DuneBuilderView {
            dune_project_dir: self.dune_project_dir@,
            dune_build_dir: self.dune_build_dir@,
            ocaml_build_dir: self.ocaml_build_dir@,
            profile: self.profile@,
            dune_args: strings_view(self.dune_args@),
            dune_invocation: self.dune_invocation,
        }
    }
}

/// `base` joined with `rest` as `Path::join` does on Unix: an absolute
/// `rest` replaces `base`; otherwise a `/` is put between them unless
/// `base` is empty or already ends with one.
pub open spec fn join_path(base: Seq<char>, rest: Seq<char>) -> Seq<char> {
    if rest.len() > 0 && rest[0] == '/' {
        rest
    } else if base.len() == 0 || base.last() == '/' {
        base + rest
    } else {
        base + seq!['/'] + rest
    }
}

/// The build directory of a profile.
pub open spec fn profile_build_dir(project: Seq<char>, profile: Seq<char>) -> Seq<char> {
    join_path(join_path(project, "_build"@), profile)
}

/// Joins two paths.
pub fn join(base: &str, rest: &str) -> (r: String)
    ensures
        r@ == join_path(base@, rest@),
{
    proof {
        reveal_strlit("/");
    }
    let rest_starts_with_sep = rest.unicode_len() > 0 && rest.get_char(0) == '/';
    if rest_starts_with_sep {
        return String::from_str(rest);
    }
    let n = base.unicode_len();
    let mut r = String::from_str(base);
    if !(n == 0 || base.get_char(n - 1) == '/') {
        r.append("/");
    }
    r.append(rest);
    r
}

/// The command line of a build: the program and its arguments.
pub open spec fn command_line(b: DuneBuilderView, target: Seq<char>) -> (Seq<char>, Seq<Seq<char>>) {
    let dune_args = seq!["build"@] + (if b.profile != "default"@ {
        seq!["--profile"@, b.profile]
    } else {
        Seq::empty()
    }) + seq![join_path(b.ocaml_build_dir, target)] + b.dune_args;
    match b.dune_invocation {
        DuneInvocation::System => ("dune"@, dune_args),
        DuneInvocation::OpamExec => ("opam"@, seq!["exec"@, "--"@, "dune"@] + dune_args),
    }
}

/// The file name of a path: what follows its last `/`.
pub open spec fn file_name_of(path: Seq<char>) -> Seq<char>
    decreases path.len(),
{
    if path.len() == 0 {
        path
    } else if path.last() == '/' {
        Seq::empty()
    } else {
        file_name_of(path.drop_last()).push(path.last())
    }
}

/// The file name has the extension `o`: it ends with `.o` and is not the
/// name `.o` itself.
pub open spec fn has_o_extension(path: Seq<char>) -> bool {
    let name = file_name_of(path);
    name.len() >= 3 && name[name.len() - 2] == '.' && name[name.len() - 1] == 'o'
}

/// The paths of the entries that are files with the extension `o`.
pub open spec fn objects_of(entries: Seq<(Seq<char>, bool)>) -> Seq<Seq<char>>
    decreases entries.len(),
{
    if entries.len() == 0 {
        Seq::empty()
    } else {
        let rest = objects_of(entries.drop_last());
        let (path, is_file) = entries.last();
        if is_file && has_o_extension(path) {
            rest.push(path)
        } else {
            rest
        }
    }
}

/// Appends a string to a vector of strings.
fn push_string(v: &mut Vec<String>, s: String)
    ensures
        strings_view(final(v)@) == strings_view(old(v)@).push(s@),
{
    let ghost before = v@;
    v.push(s);
    proof {
        assert forall|j: int| 0 <= j < v@.len() implies #[trigger] strings_view(v@)[j]
            == strings_view(before).push(s@)[j] by {
            if j < before.len() {
                assert(v@[j] == before[j]);
            }
        }
        assert(strings_view(v@) =~= strings_view(before).push(s@));
    }
}

/// Whether the file name of `path` has the extension `o`.
pub fn is_object_file(path: &str) -> (r: bool)
    ensures
        r == has_o_extension(path@),
{
    let n = path.unicode_len();
    let mut start: usize = n;
    while start > 0 && path.get_char(start - 1) != '/'
        invariant
            start <= n,
            n == path@.len(),
            forall|j: int| start <= j < n ==> path@[j] != '/',
        decreases start,
    {
        start = start - 1;
    }
    proof {
        lemma_file_name(path@, start as int);
    }
    let len = n - start;
    len >= 3 && path.get_char(n - 2) == '.' && path.get_char(n - 1) == 'o'
}

/// The file name of `path` is what follows index `start`, when no `/`
/// follows it and `start` is the start or follows a `/`.
proof fn lemma_file_name(path: Seq<char>, start: int)
    requires
        0 <= start <= path.len(),
        forall|j: int| start <= j < path.len() ==> path[j] != '/',
        start == 0 || path[start - 1] == '/',
    ensures
        file_name_of(path) == path.subrange(start, path.len() as int),
    decreases path.len(),
{
    if path.len() == 0 {
    } else if start == path.len() {
        assert(path.last() == '/');
        assert(path.subrange(start, path.len() as int) =~= Seq::<char>::empty());
    } else {
        lemma_file_name(path.drop_last(), start);
        assert(path.subrange(start, path.len() as int) =~= path.drop_last().subrange(
            start,
            path.len() - 1,
        ).push(path.last()));
    }
}

impl DuneBuilder {
    /// A builder for the OCaml directory `ocaml_build_dir`, relative to the
    /// dune project in `dune_project_dir`, with the default profile and
    /// invocation through opam.
    pub fn from_dirs(dune_project_dir: String, ocaml_build_dir: String) -> (r: Self)
        ensures
            r@.dune_project_dir == dune_project_dir@,
            r@.ocaml_build_dir == ocaml_build_dir@,
            r@.profile == "default"@,
            r@.dune_build_dir == profile_build_dir(dune_project_dir@, "default"@),
            r@.dune_args == Seq::<Seq<char>>::empty(),
            r@.dune_invocation == DuneInvocation::OpamExec,
    {
        let profile = String::from_str("default");
        let build = join(dune_project_dir.as_str(), "_build");
        let dune_build_dir = join(build.as_str(), profile.as_str());
        let r = DuneBuilder {
            dune_project_dir,
            dune_build_dir,
            ocaml_build_dir,
            profile,
            dune_args: Vec::new(),
            dune_invocation: DuneInvocation::OpamExec,
        };
        proof {
            assert(strings_view(r.dune_args@) =~= Seq::<Seq<char>>::empty());
        }
        r
    }

    /// Sets the dune profile, and the build directory that goes with it.
    pub fn with_profile(self, profile_name: &str) -> (r: Self)
        ensures
            r@ == (DuneBuilderView {
                profile: profile_name@,
                dune_build_dir: profile_build_dir(self@.dune_project_dir, profile_name@),
                ..self@
            }),
    {
        let new_profile = String::from_str(profile_name);
        let build = join(self.dune_project_dir.as_str(), "_build");
        let new_dune_build_dir = join(build.as_str(), new_profile.as_str());
        DuneBuilder { dune_build_dir: new_dune_build_dir, profile: new_profile, ..self }
    }

    /// Sets the extra arguments passed to `dune build`.
    pub fn with_dune_args(self, extra_args: Vec<String>) -> (r: Self)
        ensures
            r@ == (DuneBuilderView { dune_args: strings_view(extra_args@), ..self@ }),
    {
        DuneBuilder { dune_args: extra_args, ..self }
    }

    /// Sets how dune is run.
    pub fn with_dune_invocation(self, invocation: DuneInvocation) -> (r: Self)
        ensures
            r@ == (DuneBuilderView { dune_invocation: invocation, ..self@ }),
    {
        DuneBuilder { dune_invocation: invocation, ..self }
    }

    /// The directory of the dune project.
    pub fn dune_project_dir(&self) -> (r: &String)
        ensures
            r@ == self@.dune_project_dir,
    {
        &self.dune_project_dir
    }

    /// The directory in which the build leaves the object files.
    pub fn build_output_dir(&self) -> (r: String)
        ensures
            r@ == join_path(self@.dune_build_dir, self@.ocaml_build_dir),
    {
        join(self.dune_build_dir.as_str(), self.ocaml_build_dir.as_str())
    }

    /// The program and arguments that build `target`.
    pub fn command(&self, target: &str) -> (r: (String, Vec<String>))
        ensures
            (r.0@, strings_view(r.1@)) == command_line(self@, target@),
    {
        proof {
            reveal_strlit("default");
        }
        let mut args: Vec<String> = Vec::new();
        let program = match self.dune_invocation {
            DuneInvocation::System => String::from_str("dune"),
            DuneInvocation::OpamExec => {
                push_string(&mut args, String::from_str("exec"));
                push_string(&mut args, String::from_str("--"));
                push_string(&mut args, String::from_str("dune"));
                String::from_str("opam")
            },
        };
        let ghost prefix = strings_view(args@);
        proof {
            assert(strings_view(Seq::<String>::empty()) =~= Seq::<Seq<char>>::empty());
        }
        push_string(&mut args, String::from_str("build"));
        let default_profile = String::from_str("default");
        let ghost before_profile = strings_view(args@);
        if !(self.profile == default_profile) {
            push_string(&mut args, String::from_str("--profile"));
            push_string(&mut args, self.profile.clone());
        }
        let ghost before_target = strings_view(args@);
        push_string(&mut args, join(self.ocaml_build_dir.as_str(), target));
        let ghost before_extra = strings_view(args@);
        let mut i: usize = 0;
        while i < self.dune_args.len()
            invariant
                i <= self.dune_args@.len(),
                strings_view(self.dune_args@) == self@.dune_args,
                strings_view(args@) == before_extra + self@.dune_args.take(i as int),
            decreases self.dune_args@.len() - i,
        {
            push_string(&mut args, self.dune_args[i].clone());
            proof {
                assert(self@.dune_args[i as int] == self.dune_args@[i as int]@);
                assert(strings_view(args@) =~= before_extra + self@.dune_args.take(i + 1));
            }
            i = i + 1;
        }
        proof {
            assert(self@.dune_args.take(self.dune_args@.len() as int) =~= self@.dune_args);
            let b = self@;
            let dune_args = seq!["build"@] + (if b.profile != "default"@ {
                seq!["--profile"@, b.profile]
            } else {
                Seq::empty()
            }) + seq![join_path(b.ocaml_build_dir, target@)] + b.dune_args;
            match b.dune_invocation {
                DuneInvocation::System => {
                    assert(prefix =~= Seq::<Seq<char>>::empty());
                    assert(strings_view(args@) =~= dune_args);
                },
                DuneInvocation::OpamExec => {
                    assert(prefix =~= seq!["exec"@, "--"@, "dune"@]);
                    assert(strings_view(args@) =~= seq!["exec"@, "--"@, "dune"@] + dune_args);
                },
            }
        }
        (program, args)
    }

    /// The paths of the entries (path, is a file) that are object files.
    pub fn object_files(entries: Vec<(String, bool)>) -> (r: Vec<String>)
        ensures
            strings_view(r@) == objects_of(entries@.map_values(|e: (String, bool)| (e.0@, e.1))),
    {
        let ghost ev = entries@.map_values(|e: (String, bool)| (e.0@, e.1));
        let mut objects: Vec<String> = Vec::new();
        let mut i: usize = 0;
        proof {
            assert(ev.take(0) =~= Seq::<(Seq<char>, bool)>::empty());
        }
        while i < entries.len()
            invariant
                i <= entries@.len(),
                ev == entries@.map_values(|e: (String, bool)| (e.0@, e.1)),
                strings_view(objects@) == objects_of(ev.take(i as int)),
            decreases entries@.len() - i,
        {
            let (path, is_file) = &entries[i];
            proof {
                assert(ev.take(i + 1).drop_last() =~= ev.take(i as int));
                assert(ev.take(i + 1).last() == (path@, *is_file));
            }
            if *is_file && is_object_file(path.as_str()) {
                push_string(&mut objects, path.clone());
                proof {
                    assert(strings_view(objects@) =~= objects_of(ev.take(i as int)).push(path@));
                }
            }
            i = i + 1;
        }
        proof {
            assert(ev.take(entries@.len() as int) =~= ev);
        }
        objects
    }
}

/// The first index, at or after `i`, of an ancestor that holds a
/// `dune-project` file.
pub open spec fn first_project(candidates: Seq<(String, bool)>, i: int) -> Option<int>
    decreases candidates.len() - i,
{
    if i < 0 || i >= candidates.len() {
        None
    } else if candidates[i].1 {
        Some(i)
    } else {
        first_project(candidates, i + 1)
    }
}

/// The dune project of a directory: among its ancestors, nearest first,
/// each with whether it holds a `dune-project` file, the nearest that does.
pub fn find_dune_project_location(ancestors: &Vec<(String, bool)>) -> (r: Option<String>)
    ensures
        match first_project(ancestors@, 0) {
            Some(i) => r matches Some(d) && d@ == ancestors@[i].0@,
            None => r is None,
        },
{
    let mut i: usize = 0;
    while i < ancestors.len()
        invariant
            i <= ancestors@.len(),
            first_project(ancestors@, 0) == first_project(ancestors@, i as int),
        decreases ancestors@.len() - i,
    {
        if ancestors[i].1 {
            return Some(ancestors[i].0.clone());
        }
        i = i + 1;
    }
    None
}

/// Whether the components `prefix` begin the components `path`.
pub open spec fn starts_with_components(path: Seq<Seq<char>>, prefix: Seq<Seq<char>>) -> bool {
    prefix.len() <= path.len() && path.take(prefix.len() as int) == prefix
}

/// The texts of path components.
pub open spec fn component_texts(c: Seq<String>) -> Seq<Seq<char>> {
    c.map_values(|s: String| s@)
}

/// Whether two path components are the same.
fn same_component(a: &String, b: &String) -> (r: bool)
    ensures
        r == (a@ == b@),
{
    *a == *b
}

/// A directory relative to the dune project, by path components: the
/// components of `base_dir` after those of `dune_project_dir`, when these
/// begin it.
pub fn dir_relative_to_dune_project(base_dir: &Vec<String>, dune_project_dir: &Vec<String>) -> (r:
    Option<Vec<String>>)
    ensures
        starts_with_components(component_texts(base_dir@), component_texts(dune_project_dir@))
            ==> (r matches Some(rest) && component_texts(rest@) == component_texts(base_dir@).skip(
            dune_project_dir@.len() as int,
        )),
        !starts_with_components(component_texts(base_dir@), component_texts(dune_project_dir@))
            ==> r is None,
{
    let ghost b = component_texts(base_dir@);
    let ghost p = component_texts(dune_project_dir@);
    if dune_project_dir.len() > base_dir.len() {
        return None;
    }
    let mut i: usize = 0;
    while i < dune_project_dir.len()
        invariant
            i <= dune_project_dir@.len() <= base_dir@.len(),
            b == component_texts(base_dir@),
            p == component_texts(dune_project_dir@),
            forall|j: int| 0 <= j < i ==> b[j] == p[j],
        decreases dune_project_dir@.len() - i,
    {
        if !same_component(&base_dir[i], &dune_project_dir[i]) {
            assert(b[i as int] == base_dir@[i as int]@);
            assert(p[i as int] == dune_project_dir@[i as int]@);
            assert(b.take(p.len() as int)[i as int] != p[i as int]);
            return None;
        }
        i = i + 1;
    }
    assert(b.take(p.len() as int) =~= p);
    let mut rest: Vec<String> = Vec::new();
    let mut k: usize = dune_project_dir.len();
    while k < base_dir.len()
        invariant
            dune_project_dir@.len() <= k <= base_dir@.len(),
            b == component_texts(base_dir@),
            component_texts(rest@) == b.subrange(dune_project_dir@.len() as int, k as int),
        decreases base_dir@.len() - k,
    {
        let c = base_dir[k].clone();
        let ghost before = rest@;
        rest.push(c);
        proof {
            assert(c@ == b[k as int]);
            assert(rest@ == before.push(c));
            assert(component_texts(rest@) =~= component_texts(before).push(c@));
            assert(component_texts(rest@) =~= b.subrange(dune_project_dir@.len() as int, k + 1));
        }
        k = k + 1;
    }
    assert(b.subrange(dune_project_dir@.len() as int, base_dir@.len() as int) =~= b.skip(
        dune_project_dir@.len() as int,
    ));
    Some(rest)
}

} // verus!
