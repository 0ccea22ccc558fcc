use crate::editor::Editor;
use crate::radio::RadioOptionValue;
use crate::strutil::views_of;
use crate::vcs::Vcs;
use vstd::prelude::*;
use vstd::string::StringExecFns;

verus! {

/// A read-only record of which external tools answered an availability probe.
/// The probes themselves run outside the library; the result is handed in as
/// plain data, so that everything that depends on it is deterministic.
pub struct ToolAvailability {
    entries: Vec<(String, bool)>,
}

/// The mapping that a list of probe entries denotes; a later entry for the
/// same tool overrides an earlier one.
pub closed spec fn map_of(s: Seq<(String, bool)>) -> Map<Seq<char>, bool>
    decreases s.len(),
{
    if s.len() == 0 {
        Map::empty()
    } else {
        map_of(s.drop_last()).insert(s.last().0@, s.last().1)
    }
}

impl View for ToolAvailability {
    type V = Map<Seq<char>, bool>;

    closed spec fn view(&self) -> Map<Seq<char>, bool> {
        map_of(self.entries@)
    }
}

impl ToolAvailability {
    /// An empty record: no tool is known to be available.
    pub fn new() -> (r: Self)
        ensures
            r@ == Map::<Seq<char>, bool>::empty(),
    {
        ToolAvailability { entries: Vec::new() }
    }

    /// Record the outcome of one probe.
    pub fn record(&mut self, tool: String, available: bool)
        ensures
            final(self)@ == old(self)@.insert(tool@, available),
    {
        let ghost pre = self.entries@;
        self.entries.push((tool, available));
        proof {
            assert(self.entries@.drop_last() =~= pre);
        }
    }

    /// Whether the named tool was probed and found available; an unknown tool
    /// counts as unavailable.
    pub fn lookup(&self, cmd: &String) -> (r: bool)
        ensures
            r == (self@.contains_key(cmd@) && self@[cmd@]),
    {
        let mut r = false;
        let mut i: usize = 0;
        while i < self.entries.len()
            invariant
                i <= self.entries@.len(),
                r == {
                    let m = map_of(self.entries@.take(i as int));
                    m.contains_key(cmd@) && m[cmd@]
                },
            decreases self.entries@.len() - i,
        {
            let ghost prefix = self.entries@.take(i as int);
            if self.entries[i].0 == *cmd {
                r = self.entries[i].1;
            }
            proof {
                assert(self.entries@.take(i + 1).drop_last() =~= prefix);
            }
            i += 1;
        }
        proof {
            assert(self.entries@.take(self.entries@.len() as int) =~= self.entries@);
        }
        r
    }
}

/// The executables of a list of version-control choices.
pub open spec fn vcs_exes(s: Seq<Vcs>) -> Seq<Seq<char>> {
    s.map_values(|x: Vcs| x.spec_exe())
}

/// The executables of a list of editor choices.
pub open spec fn editor_exes(s: Seq<Editor>) -> Seq<Seq<char>> {
    s.map_values(|x: Editor| x.spec_exe())
}

/// The probe descriptions of a list of executable names.
pub open spec fn spec_desc_list(xs: Seq<Seq<char>>) -> Seq<Seq<char>> {
    xs.map_values(|x: Seq<char>| spec_desc(x))
}

/// Mapping to executables commutes with extending the list.
pub proof fn lemma_vcs_exes_push(s: Seq<Vcs>, x: Vcs)
    ensures
        vcs_exes(s.push(x)) == vcs_exes(s).push(x.spec_exe()),
{
    assert forall|k: int| 0 <= k < s.push(x).len() implies vcs_exes(s.push(x))[k] == vcs_exes(
        s,
    ).push(x.spec_exe())[k] by {
        if k < s.len() {
            assert(s.push(x)[k] == s[k]);
        } else {
            assert(s.push(x)[k] == x);
        }
    }
    assert(vcs_exes(s.push(x)) =~= vcs_exes(s).push(x.spec_exe()));
}

/// Mapping to executables commutes with extending the list.
pub proof fn lemma_editor_exes_push(s: Seq<Editor>, x: Editor)
    ensures
        editor_exes(s.push(x)) == editor_exes(s).push(x.spec_exe()),
{
    assert forall|k: int| 0 <= k < s.push(x).len() implies editor_exes(s.push(x))[k] == editor_exes(
        s,
    ).push(x.spec_exe())[k] by {
        if k < s.len() {
            assert(s.push(x)[k] == s[k]);
        } else {
            assert(s.push(x)[k] == x);
        }
    }
    assert(editor_exes(s.push(x)) =~= editor_exes(s).push(x.spec_exe()));
}

/// Mapping to descriptions commutes with extending the list.
pub proof fn lemma_desc_list_push(xs: Seq<Seq<char>>, x: Seq<char>)
    ensures
        spec_desc_list(xs.push(x)) == spec_desc_list(xs).push(spec_desc(x)),
{
    assert forall|k: int| 0 <= k < xs.push(x).len() implies spec_desc_list(xs.push(x))[k]
        == spec_desc_list(xs).push(spec_desc(x))[k] by {
        if k < xs.len() {
            assert(xs.push(x)[k] == xs[k]);
        } else {
            assert(xs.push(x)[k] == x);
        }
    }
    assert(spec_desc_list(xs.push(x)) =~= spec_desc_list(xs).push(spec_desc(x)));
}

/// The executables of the version-control and editor choices.
pub open spec fn spec_enum_exe_names() -> Seq<Seq<char>> {
    vcs_exes(Vcs::spec_all()) + editor_exes(Editor::spec_all())
}

/// Every executable the wizard may need: the version-control and editor
/// executables, followed by the download and unpacking tools.
pub open spec fn spec_exe_names() -> Seq<Seq<char>> {
    spec_enum_exe_names() + seq!["curl"@, "wget"@, "unzip"@, "tar"@, "7z"@]
}

/// The probe description shown for one executable.
pub open spec fn spec_desc(s: Seq<char>) -> Seq<char> {
    "checking "@ + s + (if s.len() == 0 {
        Seq::<char>::empty()
    } else {
        " "@
    }) + "executable..."@
}

/// The probe description shown for one executable.
fn desc_of(name: &String) -> (r: String)
    ensures
        r@ == spec_desc(name@),
{
    let mut d = "checking ".to_owned();
    d.append(name.as_str());
    if !name.as_str().is_empty() {
        d.append(" ");
    }
    d.append("executable...");
    d
}

/// The executables of the version-control and editor choices, in order.
fn enum_exe_names() -> (r: Vec<String>)
    ensures
        views_of(r@) == spec_enum_exe_names(),
{
    let mut out: Vec<String> = Vec::new();
    let vcs_all: Vec<Vcs> = Vcs::all_values();
    let mut i: usize = 0;
    while i < vcs_all.len()
        invariant
            i <= vcs_all@.len(),
            vcs_all@ == Vcs::spec_all(),
            views_of(out@) == vcs_exes(Vcs::spec_all().take(i as int)),
        decreases vcs_all@.len() - i,
    {
        let e = vcs_all[i].exe();
        let ghost out_pre = out@;
        out.push(e);
        proof {
            assert(Vcs::spec_all().take(i + 1) =~= Vcs::spec_all().take(i as int).push(
                Vcs::spec_all()[i as int],
            ));
            crate::strutil::lemma_views_of_push(out_pre, e);
            lemma_vcs_exes_push(Vcs::spec_all().take(i as int), Vcs::spec_all()[i as int]);
        }
        i += 1;
    }
    proof {
        assert(Vcs::spec_all().take(Vcs::spec_all().len() as int) =~= Vcs::spec_all());
    }
    let ed_all: Vec<Editor> = Editor::all_values();
    let mut j: usize = 0;
    while j < ed_all.len()
        invariant
            j <= ed_all@.len(),
            ed_all@ == Editor::spec_all(),
            views_of(out@) == vcs_exes(Vcs::spec_all()) + editor_exes(
                Editor::spec_all().take(j as int),
            ),
        decreases ed_all@.len() - j,
    {
        let e = ed_all[j].exe();
        let ghost out_pre = out@;
        out.push(e);
        proof {
            assert(Editor::spec_all().take(j + 1) =~= Editor::spec_all().take(j as int).push(
                Editor::spec_all()[j as int],
            ));
            crate::strutil::lemma_views_of_push(out_pre, e);
            lemma_editor_exes_push(Editor::spec_all().take(j as int), Editor::spec_all()[j as int]);
            assert(views_of(out@) == vcs_exes(Vcs::spec_all()) + editor_exes(
                Editor::spec_all().take(j as int),
            ).push(Editor::spec_all()[j as int].spec_exe()));
            assert(vcs_exes(Vcs::spec_all()) + editor_exes(Editor::spec_all().take(j as int)).push(
                Editor::spec_all()[j as int].spec_exe(),
            ) =~= vcs_exes(Vcs::spec_all()) + editor_exes(Editor::spec_all().take(j + 1)));
        }
        j += 1;
    }
    proof {
        assert(Editor::spec_all().take(Editor::spec_all().len() as int) =~= Editor::spec_all());
        assert(views_of(out@) =~= spec_enum_exe_names());
    }
    out
}

/// The catalog of external executables the wizard probes before it becomes
/// interactive: tool names, and the matching progress descriptions.
pub struct Executable {}

impl Executable {
    /// The probe list: with `descs` false the executable names themselves,
    /// with `descs` true the matching progress descriptions.
    pub fn list(descs: bool) -> (r: Vec<String>)
        ensures
            !descs ==> views_of(r@) == spec_exe_names(),
            descs ==> views_of(r@) == spec_desc_list(spec_exe_names()),
    {
        let mut names = enum_exe_names();
        names.push("curl".to_owned());
        names.push("wget".to_owned());
        names.push("unzip".to_owned());
        names.push("tar".to_owned());
        names.push("7z".to_owned());
        proof {
            assert(views_of(names@) =~= spec_exe_names());
        }
        if !descs {
            return names;
        }
        let mut out: Vec<String> = Vec::new();
        let mut i: usize = 0;
        while i < names.len()
            invariant
                i <= names@.len(),
                views_of(names@) == spec_exe_names(),
                views_of(out@) == spec_desc_list(views_of(names@).take(i as int)),
            decreases names@.len() - i,
        {
            let d = desc_of(&names[i]);
            let ghost out_pre = out@;
            out.push(d);
            proof {
                assert(views_of(names@).take(i + 1) =~= views_of(names@).take(i as int).push(
                    names@[i as int]@,
                ));
                crate::strutil::lemma_views_of_push(out_pre, d);
                lemma_desc_list_push(views_of(names@).take(i as int), names@[i as int]@);
                assert(views_of(names@)[i as int] == names@[i as int]@);
            }
            i += 1;
        }
        proof {
            assert(views_of(names@).take(views_of(names@).len() as int) =~= views_of(names@));
        }
        out
    }

    /// Whether the named tool answered its probe; an unknown tool counts as
    /// unavailable.
    pub fn executable(tools: &ToolAvailability, cmd: &String) -> (r: bool)
        ensures
            r == (tools@.contains_key(cmd@) && tools@[cmd@]),
    {
        tools.lookup(cmd)
    }
}

/// The probe catalog restricted to the version-control and editor executables.
pub struct ExecutableEnum {}

impl ExecutableEnum {
    /// The probe list: with `descs` false the executable names themselves,
    /// with `descs` true the matching progress descriptions.
    pub fn list(descs: bool) -> (r: Vec<String>)
        ensures
            !descs ==> views_of(r@) == spec_enum_exe_names(),
            descs ==> views_of(r@) == spec_desc_list(spec_enum_exe_names()),
    {
        let names = enum_exe_names();
        if !descs {
            return names;
        }
        let mut out: Vec<String> = Vec::new();
        let mut i: usize = 0;
        while i < names.len()
            invariant
                i <= names@.len(),
                views_of(names@) == spec_enum_exe_names(),
                views_of(out@) == spec_desc_list(views_of(names@).take(i as int)),
            decreases names@.len() - i,
        {
            let d = desc_of(&names[i]);
            let ghost out_pre = out@;
            out.push(d);
            proof {
                assert(views_of(names@).take(i + 1) =~= views_of(names@).take(i as int).push(
                    names@[i as int]@,
                ));
                crate::strutil::lemma_views_of_push(out_pre, d);
                lemma_desc_list_push(views_of(names@).take(i as int), names@[i as int]@);
                assert(views_of(names@)[i as int] == names@[i as int]@);
            }
            i += 1;
        }
        proof {
            assert(views_of(names@).take(views_of(names@).len() as int) =~= views_of(names@));
        }
        out
    }
}

} // verus!
