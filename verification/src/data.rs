//! The session state: what a session carries from one iteration to the next.

use vstd::prelude::*;
use vstd::string::*;
use crate::command::{
    command_views, lookup, named_before, names_unique, CmdArgs, Command, CommandAction,
    CommandView,
};
use crate::input::EditMode;
use crate::linking::{
    artifact_source, staged_target, staging_request, text_of, LinkingConfiguration, LinkingView,
    StagingRequest,
};

verus! {

/// A display colour. It changes how text looks, never what it says.
#[derive(Clone, Copy, PartialEq, Eq, Debug, Structural)]
pub enum Colour {
    Red,
    Green,
    Yellow,
    Blue,
    Cyan,
    White,
    BrightGreen,
    BrightYellow,
}

/// A named buffer of source text: the units committed to it, oldest first.
#[derive(Debug)]
pub struct SourceFile {
    /// The identifier of the buffer.
    pub path: String,
    /// The units of the buffer.
    pub items: Vec<String>,
}

/// The mathematical value of a [`SourceFile`].
pub ghost struct SourceFileView {
    pub path: Seq<char>,
    pub items: Seq<Seq<char>>,
}

/// The texts of a sequence of strings.
pub open spec fn texts(items: Seq<String>) -> Seq<Seq<char>> {
    items.map_values(|s: String| s@)
}

impl View for SourceFile {
    type V = SourceFileView;

    open spec fn view(&self) -> SourceFileView {
        SourceFileView { path: self.path@, items: texts(self.items@) }
    }
}

/// The identifier of the library buffer, the root of every compilation.
pub open spec fn lib_path() -> Seq<char> {
    "lib.rs"@
}

impl SourceFile {
    /// The empty library buffer.
    pub fn lib() -> (file: Self)
        ensures
            file@ == (SourceFileView { path: lib_path(), items: Seq::empty() }),
    {
        let file = SourceFile { path: String::from_str("lib.rs"), items: Vec::new() };
        assert(texts(file.items@) =~= Seq::empty());
        file
    }
}

/// Why a command registry could not be built.
#[derive(Clone, Copy, PartialEq, Eq, Debug, Structural)]
pub enum BuildError {
    /// A command already carries the name of the built-in command.
    ReservedName,
    /// Two commands carry the same name.
    DuplicateName,
}

/// The long-lived state of a session.
#[derive(Debug)]
pub struct ReplData {
    /// The active command registry.
    pub cmdtree: Vec<Command>,
    /// The library buffer.
    pub lib: SourceFile,
    /// The other buffers.
    pub files: Vec<SourceFile>,
    /// The identifier of the buffer in focus.
    pub current_file: String,
    /// The colour of the prompt.
    pub prompt_colour: Colour,
    /// The colour of results.
    pub out_colour: Colour,
    /// The directory in which the compiler works and artifacts are staged.
    pub compilation_dir: String,
    /// The linking configuration.
    pub linking: LinkingConfiguration,
    /// Whether the output of executed code is redirected to the session.
    pub redirect_on_execution: bool,
    /// The edit mode.
    pub mode: EditMode,
}

/// The mathematical value of a [`ReplData`].
pub ghost struct SessionView {
    pub commands: Seq<CommandView>,
    pub library: Seq<Seq<char>>,
    pub files: Seq<SourceFileView>,
    pub current_file: Seq<char>,
    pub prompt_colour: Colour,
    pub out_colour: Colour,
    pub compilation_dir: Seq<char>,
    pub linking: LinkingView,
    pub redirect_on_execution: bool,
    pub mode: EditMode,
}

impl View for ReplData {
    type V = SessionView;

    open spec fn view(&self) -> SessionView {
        SessionView {
            commands: command_views(self.cmdtree@),
            library: texts(self.lib.items@),
            files: self.files@.map_values(|f: SourceFile| f@),
            current_file: self.current_file@,
            prompt_colour: self.prompt_colour,
            out_colour: self.out_colour,
            compilation_dir: self.compilation_dir@,
            linking: self.linking@,
            redirect_on_execution: self.redirect_on_execution,
            mode: self.mode,
        }
    }
}

/// The name of the built-in command.
pub open spec fn mut_name() -> Seq<char> {
    "mut"@
}

/// The built-in command, which begins a mutable block.
pub open spec fn mut_command() -> CommandView {
    CommandView {
        name: mut_name(),
        arg_type: CmdArgs::NoArgs,
        help: "Begin a mutable block of code"@,
        action: CommandAction::BeginMutBlock,
    }
}

/// The state in which every session starts.
pub open spec fn default_session() -> SessionView {
    SessionView {
        commands: seq![mut_command()],
        library: Seq::empty(),
        files: Seq::empty(),
        current_file: lib_path(),
        prompt_colour: Colour::Cyan,
        out_colour: Colour::BrightGreen,
        compilation_dir: ".papyrus"@,
        linking: LinkingView { crates: Map::empty(), data_type: None },
        redirect_on_execution: true,
        mode: EditMode::Normal,
    }
}

/// A registry as every session holds one: its names are unique, and the
/// built-in command is in it.
pub open spec fn registry_wf(cmds: Seq<CommandView>) -> bool {
    names_unique(cmds) && lookup(cmds, mut_name()) == Some(mut_command())
}

impl Default for ReplData {
    fn default() -> (data: Self)
        ensures
            data@ == default_session(),
            data.wf(),
    {
        let lib = SourceFile::lib();
        let lib_path = lib.path.clone();
        let mut cmdtree: Vec<Command> = Vec::new();
        cmdtree.push(
            Command::new(
                "mut",
                CmdArgs::NoArgs,
                "Begin a mutable block of code",
                CommandAction::BeginMutBlock,
            ),
        );
        let data = ReplData {
            cmdtree: cmdtree,
            lib: lib,
            files: Vec::new(),
            current_file: lib_path,
            prompt_colour: Colour::Cyan,
            out_colour: Colour::BrightGreen,
            compilation_dir: String::from_str(".papyrus"),
            linking: LinkingConfiguration::default(),
            redirect_on_execution: true,
            mode: EditMode::Normal,
        };
        proof {
            assert(data@.commands =~= seq![mut_command()]);
            assert(data@.files =~= Seq::empty());
            assert(data@.library =~= Seq::empty());
        }
        data
    }
}

impl ReplData {
    /// A session as this library builds and keeps it: the registry has
    /// unique names and the built-in command, every linked unit is
    /// registered once, the library buffer is there under its identifier, no
    /// two buffers share an identifier, and the buffer in focus exists.
    pub open spec fn wf(&self) -> bool {
        &&& registry_wf(self@.commands)
        &&& self.linking.wf()
        &&& self.lib.path@ == lib_path()
        &&& forall|i: int|
            0 <= i < self.files.len() ==> (#[trigger] self.files[i]).path@ != lib_path()
        &&& forall|i: int, j: int|
            0 <= i < j < self.files.len() ==> (#[trigger] self.files[i]).path@
                != (#[trigger] self.files[j]).path@
        &&& (self.current_file@ == lib_path() || exists|i: int|
            0 <= i < self.files.len() && (#[trigger] self.files[i]).path@ == self.current_file@)
    }

    /// Sets the compilation directory, given how making sure that it exists
    /// went. Where that failed, the failure is handed back.
    pub fn with_compilation_dir(self, dir: &str, prepared: Result<(), String>) -> (updated: Result<
        Self,
        String,
    >)
        ensures
            match prepared {
                Ok(_) => updated matches Ok(d) && d@ == (SessionView {
                    compilation_dir: dir@,
                    ..self@
                }),
                Err(e) => updated matches Err(m) && m@ == e@,
            },
            self.wf() ==> (updated matches Ok(d) ==> d.wf()),
    {
        match prepared {
            Err(e) => Err(e),
            Ok(_) => {
                let mut data = self;
                data.compilation_dir = String::from_str(dir);
                Ok(data)
            },
        }
    }

    /// Uses the given commands as the registry, with the built-in command
    /// added after them. A command that already carries its name, or two
    /// commands with one name, are refused.
    pub fn with_cmdtree_builder(self, builder: Vec<Command>) -> (updated: Result<Self, BuildError>)
        ensures
            match updated {
                Ok(d) => lookup(command_views(builder@), mut_name()).is_none() && names_unique(
                    command_views(builder@),
                ) && d@ == (SessionView {
                    commands: command_views(builder@).push(mut_command()),
                    ..self@
                }) && registry_wf(d@.commands) && (self.wf() ==> d.wf()),
                Err(BuildError::ReservedName) => lookup(
                    command_views(builder@),
                    mut_name(),
                ).is_some(),
                Err(BuildError::DuplicateName) => lookup(
                    command_views(builder@),
                    mut_name(),
                ).is_none() && !names_unique(command_views(builder@)),
            },
    {
        let reserved = String::from_str("mut");
        let ghost given = command_views(builder@);
        proof {
            crate::command::lemma_lookup_exact(given, mut_name(), 0);
        }
        if named_before(&builder, builder.len(), &reserved) {
            return Err(BuildError::ReservedName);
        }
        let mut j: usize = 0;
        while j < builder.len()
            invariant
                0 <= j <= builder.len(),
                given == command_views(builder@),
                lookup(given, mut_name()).is_none(),
                forall|a: int, b: int|
                    0 <= a < b < j ==> (#[trigger] given[a]).name != (#[trigger] given[b]).name,
            decreases builder.len() - j,
        {
            if named_before(&builder, j, &builder[j].name) {
                proof {
                    let a = choose|a: int|
                        0 <= a < j && (#[trigger] command_views(builder@)[a]).name
                            == builder[j as int].name@;
                    assert(given[a].name == given[j as int].name);
                }
                return Err(BuildError::DuplicateName);
            }
            j += 1;
        }
        let mut cmds = builder;
        cmds.push(
            Command::new(
                "mut",
                CmdArgs::NoArgs,
                "Begin a mutable block of code",
                CommandAction::BeginMutBlock,
            ),
        );
        let mut data = self;
        data.cmdtree = cmds;
        proof {
            let all = given.push(mut_command());
            assert(data@.commands =~= all);
            crate::command::lemma_lookup_exact(all, mut_name(), 0);
            assert(all[given.len() as int].name == mut_name());
        }
        Ok(data)
    }

    /// The copy that must succeed before `crate_name` may be linked.
    pub fn extern_crate_staging(&self, crate_name: &str, rlib_path: Option<&str>) -> (req:
        StagingRequest)
        ensures
            req.from@ == artifact_source(crate_name@, text_of(rlib_path)),
            req.to@ == staged_target(self@.compilation_dir, crate_name@),
    {
        staging_request(self.compilation_dir.as_str(), crate_name, rlib_path)
    }

    /// Links an external unit, given how the staging of its artifact in the
    /// compilation directory went. A name that is linked already is linked
    /// anew. Where the staging failed, the failure is handed back.
    pub fn with_extern_crate(
        self,
        crate_name: &str,
        rlib_path: Option<&str>,
        staged: Result<(), String>,
    ) -> (updated: Result<Self, String>)
        ensures
            match staged {
                Ok(_) => updated matches Ok(d) && d@ == (SessionView {
                    linking: LinkingView {
                        crates: self@.linking.crates.insert(
                            crate_name@,
                            artifact_source(crate_name@, text_of(rlib_path)),
                        ),
                        data_type: self@.linking.data_type,
                    },
                    ..self@
                }),
                Err(e) => updated matches Err(m) && m@ == e@,
            },
            self.wf() ==> (updated matches Ok(d) ==> d.wf()),
    {
        match self.linking.link_external_crate(crate_name, rlib_path, staged) {
            Err(e) => Err(e),
            Ok(linking) => {
                let mut data = self;
                data.linking = linking;
                Ok(data)
            },
        }
    }

    /// The current linking configuration.
    pub fn linking(&self) -> (linking: &LinkingConfiguration)
        ensures
            *linking == self.linking,
    {
        &self.linking
    }

    /// Sets the type that carries state between iterations.
    pub fn set_data_type(self, data_type: &str) -> (updated: Self)
        ensures
            updated@ == (SessionView {
                linking: LinkingView {
                    crates: self@.linking.crates,
                    data_type: Some(data_type@),
                },
                ..self@
            }),
            self.wf() ==> updated.wf(),
    {
        let ReplData {
            cmdtree,
            lib,
            files,
            current_file,
            prompt_colour,
            out_colour,
            compilation_dir,
            linking,
            redirect_on_execution,
            mode,
        } = self;
        ReplData {
            cmdtree: cmdtree,
            lib: lib,
            files: files,
            current_file: current_file,
            prompt_colour: prompt_colour,
            out_colour: out_colour,
            compilation_dir: compilation_dir,
            linking: linking.with_data(data_type),
            redirect_on_execution: redirect_on_execution,
            mode: mode,
        }
    }
}

} // verus!
