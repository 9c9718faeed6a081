//! Generated modules: a skeleton mod that copies a set of files into the
//! game's override directory, and its rendering as an ordinary weidu mod.

use vstd::prelude::*;
use crate::lowercase::LwcString;
use crate::origins::FileModuleOrigin;

verus! {

/// What happens after a mod's installation.
#[derive(Debug, Clone, Copy, PartialEq, Eq, Structural)]
pub enum PostInstall {
    /// Stop the run and hand control back to the user.
    Interrupt,
    /// Wait the given number of seconds before going on.
    WaitSeconds { seconds: u32 },
}

/// One selectable component of a mod.
#[derive(Debug, Clone, Copy, PartialEq, Eq, Structural)]
pub enum Component {
    Simple(u32),
}

/// Which components of a mod are installed.
#[derive(Debug, Clone)]
pub enum Components {
    Ask,
    List(Vec<Component>),
}

/// An ordinary weidu mod entry.
#[derive(Debug, Clone)]
pub struct WeiduMod {
    pub name: LwcString,
    pub description: Option<String>,
    pub components: Components,
    pub ignore_warnings: bool,
    pub post_install: Option<PostInstall>,
}

impl Default for WeiduMod {
    /// An empty mod: empty name, nothing set.
    fn default() -> (r: WeiduMod)
        ensures
            r.description is None,
            r.components is Ask,
            r.ignore_warnings == false,
            r.post_install is None,
    {
        WeiduMod {
            name: LwcString::new(""),
            description: None,
            components: Components::Ask,
            ignore_warnings: false,
            post_install: None,
        }
    }
}

/// The single component a generated mod declares.
#[derive(Debug, Clone)]
pub struct GenModComponent {
    pub index: u32,
    pub name: Option<String>,
}

/// Generates a skeleton weidu mod that copies a bunch of files into the
/// game's override directory.
#[derive(Debug, Clone)]
pub struct GeneratedMod {
    pub gen_mod: LwcString,
    pub description: Option<String>,
    /// Files the generated mod will copy.
    pub files: Vec<FileModuleOrigin>,
    pub post_install: Option<PostInstall>,
    pub component: GenModComponent,
    pub ignore_warnings: bool,
    pub allow_overwrite: bool,
}

impl GeneratedMod {
    /// The generated mod seen as an ordinary weidu mod: same name,
    /// description and post-install, with a single component at the declared
    /// index.
    pub fn as_weidu(&self) -> (r: WeiduMod)
        ensures
            r.name@ == self.gen_mod@,
            match (&r.description, &self.description) {
                (Option::Some(a), Option::Some(b)) => a@ == b@,
                (Option::None, Option::None) => true,
                _ => false,
            },
            r.components matches Components::List(cs) && cs@.len() == 1
                && cs@[0] == Component::Simple(self.component.index),
            r.ignore_warnings == self.ignore_warnings,
            r.post_install == self.post_install,
    {
        WeiduMod {
            name: self.gen_mod.clone(),
            description: match &self.description {
                Some(d) => Some(d.clone()),
                None => None,
            },
            components: Components::List(vec![Component::Simple(self.component.index)]),
            ignore_warnings: self.ignore_warnings,
            post_install: self.post_install,
        }
    }
}

} // verus!
