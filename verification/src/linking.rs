//! The linking configuration: which external code units are linked into
//! every compiled iteration, and which type carries state between them.

use vstd::prelude::*;
use vstd::string::*;

verus! {

/// One external code unit: its name and the artifact it was linked from.
#[derive(Debug)]
pub struct ExternCrate {
    /// The name under which the unit is linked.
    pub name: String,
    /// The path of the artifact.
    pub path: String,
}

impl Clone for ExternCrate {
    fn clone(&self) -> (c: Self)
        ensures
            c.name@ == self.name@,
            c.path@ == self.path@,
    {
        ExternCrate { name: self.name.clone(), path: self.path.clone() }
    }
}

/// What is woven into every compilation.
#[derive(Debug)]
pub struct LinkingConfiguration {
    /// The linked units, oldest registration first.
    pub external_crates: Vec<ExternCrate>,
    /// The type that carries state from one iteration to the next.
    pub data_type: Option<String>,
}

/// The mathematical value of a [`LinkingConfiguration`].
pub ghost struct LinkingView {
    /// From a unit's name to the path of its artifact.
    pub crates: Map<Seq<char>, Seq<char>>,
    /// The carried type, if one is set.
    pub data_type: Option<Seq<char>>,
}

/// The registrations read as a map: a later one of a name replaces an earlier one.
pub open spec fn crates_map(entries: Seq<ExternCrate>) -> Map<Seq<char>, Seq<char>>
    decreases entries.len(),
{
    if entries.len() == 0 {
        Map::empty()
    } else {
        crates_map(entries.drop_last()).insert(entries.last().name@, entries.last().path@)
    }
}

/// No two registrations carry the same name.
pub open spec fn entry_names_unique(entries: Seq<ExternCrate>) -> bool {
    forall|a: int, b: int|
        0 <= a < b < entries.len() ==> (#[trigger] entries[a]).name@ != (#[trigger] entries[b]).name@
}

/// The view of an optional piece of text.
pub open spec fn text_of(text: Option<&str>) -> Option<Seq<char>> {
    match text {
        Some(t) => Some(t@),
        None => None,
    }
}

/// The view of an optional owned piece of text.
pub open spec fn string_of(text: Option<String>) -> Option<Seq<char>> {
    match text {
        Some(t) => Some(t@),
        None => None,
    }
}

/// The file name under which the artifact of `name` is staged.
pub open spec fn staged_file_name(name: Seq<char>) -> Seq<char> {
    "lib"@ + name + ".rlib"@
}

/// Where the artifact of `name` is taken from: the path given, or by
/// convention the staged file's name, looked for beside the running program.
pub open spec fn artifact_source(name: Seq<char>, rlib_path: Option<Seq<char>>) -> Seq<char> {
    match rlib_path {
        Some(p) => p,
        None => staged_file_name(name),
    }
}

/// Where in the workspace `dir` the artifact of `name` is staged.
pub open spec fn staged_target(dir: Seq<char>, name: Seq<char>) -> Seq<char> {
    dir + "/"@ + staged_file_name(name)
}

/// The copy that stages an artifact in the workspace.
#[derive(Debug)]
pub struct StagingRequest {
    /// The artifact to copy.
    pub from: String,
    /// The file to create or overwrite in the workspace.
    pub to: String,
}

/// The copy that must succeed before `crate_name` may be linked.
pub fn staging_request(compilation_dir: &str, crate_name: &str, rlib_path: Option<&str>) -> (req:
    StagingRequest)
    ensures
        req.from@ == artifact_source(crate_name@, text_of(rlib_path)),
        req.to@ == staged_target(compilation_dir@, crate_name@),
{
    let mut file_name = String::from_str("lib");
    file_name.append(crate_name);
    file_name.append(".rlib");
    let from = match rlib_path {
        Some(p) => String::from_str(p),
        None => file_name.clone(),
    };
    let mut to = String::from_str(compilation_dir);
    to.append("/");
    to.append(file_name.as_str());
    StagingRequest { from: from, to: to }
}

impl View for LinkingConfiguration {
    type V = LinkingView;

    open spec fn view(&self) -> LinkingView {
        LinkingView {
            crates: crates_map(self.external_crates@),
            data_type: string_of(self.data_type),
        }
    }
}

impl Default for LinkingConfiguration {
    fn default() -> (c: Self)
        ensures
            c@ == (LinkingView { crates: Map::empty(), data_type: None }),
            c.wf(),
    {
        LinkingConfiguration { external_crates: Vec::new(), data_type: None }
    }
}

impl Clone for LinkingConfiguration {
    fn clone(&self) -> (c: Self)
        ensures
            c@ == self@,
            self.wf() ==> c.wf(),
    {
        let mut entries: Vec<ExternCrate> = Vec::new();
        let mut i: usize = 0;
        while i < self.external_crates.len()
            invariant
                0 <= i <= self.external_crates.len(),
                crates_map(entries@) == crates_map(self.external_crates@.take(i as int)),
                entries.len() == i,
                forall|k: int|
                    0 <= k < i ==> (#[trigger] entries[k]).name@ == self.external_crates[k].name@,
            decreases self.external_crates.len() - i,
        {
            let ghost before = entries@;
            entries.push(self.external_crates[i].clone());
            proof {
                assert(entries@.drop_last() =~= before);
                assert(self.external_crates@.take(i + 1).drop_last()
                    =~= self.external_crates@.take(i as int));
            }
            i += 1;
        }
        assert(self.external_crates@.take(i as int) =~= self.external_crates@);
        let data_type = match &self.data_type {
            Some(t) => Some(t.clone()),
            None => None,
        };
        LinkingConfiguration { external_crates: entries, data_type: data_type }
    }
}

impl LinkingConfiguration {
    /// Every linked unit is registered once.
    pub open spec fn wf(&self) -> bool {
        entry_names_unique(self.external_crates@)
    }

    /// Registers the external unit `crate_name`, given how the staging of its
    /// artifact went. Where the copy failed, its failure is handed back and
    /// nothing is registered: `self` stands as it was. Where it succeeded, the
    /// result is a new configuration in which the name maps to the artifact,
    /// whatever it was mapped to before.
    pub fn link_external_crate(
        &self,
        crate_name: &str,
        rlib_path: Option<&str>,
        staged: Result<(), String>,
    ) -> (linked: Result<Self, String>)
        ensures
            match staged {
                Ok(_) => linked matches Ok(c) && c@ == (LinkingView {
                    crates: self@.crates.insert(
                        crate_name@,
                        artifact_source(crate_name@, text_of(rlib_path)),
                    ),
                    data_type: self@.data_type,
                }),
                Err(e) => linked matches Err(m) && m@ == e@,
            },
            self.wf() ==> (linked matches Ok(c) ==> c.wf()),
    {
        match staged {
            Err(e) => Err(e),
            Ok(_) => {
                let name = String::from_str(crate_name);
                let mut file_name = String::from_str("lib");
                file_name.append(crate_name);
                file_name.append(".rlib");
                let path = match rlib_path {
                    Some(p) => String::from_str(p),
                    None => file_name,
                };
                let mut entries: Vec<ExternCrate> = Vec::new();
                let ghost mut origin: Seq<int> = Seq::empty();
                let mut i: usize = 0;
                while i < self.external_crates.len()
                    invariant
                        0 <= i <= self.external_crates.len(),
                        name@ == crate_name@,
                        origin.len() == entries.len(),
                        forall|k: int|
                            0 <= k < entries.len() ==> (#[trigger] entries[k]).name@
                                != crate_name@,
                        forall|k: int|
                            0 <= k < entries.len() ==> 0 <= #[trigger] origin[k] < i
                                && self.external_crates[origin[k]].name@ == entries[k].name@,
                        self.wf() ==> entry_names_unique(entries@),
                        crates_map(entries@) == crates_map(
                            self.external_crates@.take(i as int),
                        ).remove(crate_name@),
                    decreases self.external_crates.len() - i,
                {
                    let ghost before = entries@;
                    proof {
                        assert(self.external_crates@.take(i + 1).drop_last()
                            =~= self.external_crates@.take(i as int));
                    }
                    if self.external_crates[i].name != name {
                        entries.push(self.external_crates[i].clone());
                        proof {
                            assert(entries@.drop_last() =~= before);
                            let ghost sources = origin;
                            origin = origin.push(i as int);
                            if self.wf() {
                                assert forall|a: int, b: int|
                                    0 <= a < b < entries.len() implies (#[trigger] entries[a]).name@
                                    != (#[trigger] entries[b]).name@ by {
                                    if b == before.len() {
                                        assert(entries[a] == before[a]);
                                        assert(self.external_crates[sources[a]].name@
                                            == before[a].name@);
                                        assert(self.external_crates[sources[a]].name@
                                            != self.external_crates[i as int].name@);
                                    } else {
                                        assert(entries[a] == before[a]);
                                        assert(entries[b] == before[b]);
                                    }
                                }
                            }
                        }
                    }
                    i += 1;
                }
                assert(self.external_crates@.take(i as int) =~= self.external_crates@);
                let ghost before = entries@;
                entries.push(ExternCrate { name: name, path: path });
                proof {
                    assert(entries@.drop_last() =~= before);
                    assert(crates_map(entries@) =~= self@.crates.insert(
                        crate_name@,
                        artifact_source(crate_name@, text_of(rlib_path)),
                    ));
                }
                let data_type = match &self.data_type {
                    Some(t) => Some(t.clone()),
                    None => None,
                };
                Ok(LinkingConfiguration { external_crates: entries, data_type: data_type })
            },
        }
    }

    /// Sets the carried type. The name is taken as it is: whether such a
    /// type exists is for the compiler to say.
    pub fn with_data(self, data_type: &str) -> (c: Self)
        ensures
            c@ == (LinkingView { crates: self@.crates, data_type: Some(data_type@) }),
            c.external_crates == self.external_crates,
    {
        LinkingConfiguration {
            external_crates: self.external_crates,
            data_type: Some(String::from_str(data_type)),
        }
    }

    /// The artifact that `crate_name` is linked from, if it is linked.
    pub fn artifact_of(&self, crate_name: &str) -> (path: Option<String>)
        ensures
            match path {
                Some(p) => self@.crates.contains_key(crate_name@) && self@.crates[crate_name@]
                    == p@,
                None => !self@.crates.contains_key(crate_name@),
            },
    {
        let name = String::from_str(crate_name);
        let mut found: Option<String> = None;
        let mut i: usize = 0;
        while i < self.external_crates.len()
            invariant
                0 <= i <= self.external_crates.len(),
                name@ == crate_name@,
                match found {
                    Some(p) => crates_map(self.external_crates@.take(i as int)).contains_key(
                        crate_name@,
                    ) && crates_map(self.external_crates@.take(i as int))[crate_name@] == p@,
                    None => !crates_map(self.external_crates@.take(i as int)).contains_key(
                        crate_name@,
                    ),
                },
            decreases self.external_crates.len() - i,
        {
            proof {
                assert(self.external_crates@.take(i + 1).drop_last()
                    =~= self.external_crates@.take(i as int));
            }
            if self.external_crates[i].name == name {
                found = Some(self.external_crates[i].path.clone());
            }
            i += 1;
        }
        assert(self.external_crates@.take(i as int) =~= self.external_crates@);
        found
    }
}

/// Last write wins: after a unit was linked twice under one name, with
/// whatever was linked in between under other names left aside, the name
/// maps to the artifact of the second request, and every other name maps to
/// what it mapped to before.
pub proof fn lemma_relink_last_wins(
    before: LinkingView,
    name: Seq<char>,
    first: Seq<char>,
    second: Seq<char>,
)
    ensures
        before.crates.insert(name, first).insert(name, second)[name] == second,
        before.crates.insert(name, first).insert(name, second) == before.crates.insert(
            name,
            second,
        ),
        forall|other: Seq<char>|
            other != name ==> (#[trigger] before.crates.insert(name, first).insert(
                name,
                second,
            ).contains_key(other) == before.crates.contains_key(other)),
{
    assert(before.crates.insert(name, first).insert(name, second) =~= before.crates.insert(
        name,
        second,
    ));
}

} // verus!
