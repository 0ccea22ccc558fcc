use crate::radio::RadioOptionValue;
use crate::tools::ToolAvailability;
use vstd::prelude::*;

verus! {

/// The editor a new project is opened in once it exists.
#[derive(Clone, Copy, Debug, PartialEq, Eq, Structural)]
pub enum Editor {
    NotNeed,
    Vim,
    VSCode,
    Neovim,
    Idea,
    Clion,
    Rustrover,
}

impl Default for Editor {
    fn default() -> (r: Self)
        ensures
            r == Editor::NotNeed,
    {
        Editor::NotNeed
    }
}

impl Editor {
    /// The executable this choice relies on; empty when none is needed.
    pub open spec fn spec_exe(self) -> Seq<char> {
        match self {
            Editor::NotNeed => ""@,
            Editor::Vim => "vim"@,
            Editor::VSCode => "code"@,
            Editor::Neovim => "nvim"@,
            Editor::Idea => "idea"@,
            Editor::Clion => "clion"@,
            Editor::Rustrover => "rustrover"@,
        }
    }

    /// The executable this choice relies on; empty when none is needed.
    pub fn exe(&self) -> (r: String)
        ensures
            r@ == self.spec_exe(),
    {
        match self {
            Editor::NotNeed => "".to_owned(),
            Editor::Vim => "vim".to_owned(),
            Editor::VSCode => "code".to_owned(),
            Editor::Neovim => "nvim".to_owned(),
            Editor::Idea => "idea".to_owned(),
            Editor::Clion => "clion".to_owned(),
            Editor::Rustrover => "rustrover".to_owned(),
        }
    }
}

impl RadioOptionValue for Editor {
    open spec fn spec_all() -> Seq<Editor> {
        seq![
            Editor::NotNeed,
            Editor::Vim,
            Editor::VSCode,
            Editor::Neovim,
            Editor::Idea,
            Editor::Clion,
            Editor::Rustrover,
        ]
    }

    open spec fn spec_default() -> Editor {
        Editor::NotNeed
    }

    open spec fn spec_selectable(self, tools: Map<Seq<char>, bool>) -> bool {
        match self {
            Editor::NotNeed => true,
            _ => tools.contains_key(self.spec_exe()) && tools[self.spec_exe()],
        }
    }

    open spec fn spec_label(self) -> Seq<char> {
        match self {
            Editor::NotNeed => "NotNeed"@,
            Editor::Vim => "Vim"@,
            Editor::VSCode => "VSCode"@,
            Editor::Neovim => "Neovim"@,
            Editor::Idea => "Idea"@,
            Editor::Clion => "Clion"@,
            Editor::Rustrover => "Rustrover"@,
        }
    }

    fn all_values() -> (r: Vec<Editor>) {
        let mut v: Vec<Editor> = Vec::new();
        v.push(Editor::NotNeed);
        v.push(Editor::Vim);
        v.push(Editor::VSCode);
        v.push(Editor::Neovim);
        v.push(Editor::Idea);
        v.push(Editor::Clion);
        v.push(Editor::Rustrover);
        proof {
            assert(v@ =~= Self::spec_all());
        }
        v
    }

    fn default_value() -> (r: Editor) {
        Editor::NotNeed
    }

    fn selectable(&self, tools: &ToolAvailability) -> (r: bool) {
        match self {
            Editor::NotNeed => true,
            _ => tools.lookup(&self.exe()),
        }
    }

    fn label(&self) -> (r: String) {
        match self {
            Editor::NotNeed => "NotNeed".to_owned(),
            Editor::Vim => "Vim".to_owned(),
            Editor::VSCode => "VSCode".to_owned(),
            Editor::Neovim => "Neovim".to_owned(),
            Editor::Idea => "Idea".to_owned(),
            Editor::Clion => "Clion".to_owned(),
            Editor::Rustrover => "Rustrover".to_owned(),
        }
    }

    fn same(&self, other: &Editor) -> (r: bool) {
        *self == *other
    }
}

} // verus!
