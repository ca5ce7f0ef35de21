//! The records that flow from the catalog through the prompts to the plan.

use vstd::prelude::*;

verus! {

/// The text of each name in a list of names.
pub open spec fn names(v: Seq<String>) -> Seq<Seq<char>> {
    v.map_values(|s: String| s@)
}

/// Package names per category: the whole catalog, or what a user chose of it.
pub struct Packages {
    pub software: Vec<String>,
    pub service: Vec<String>,
    pub font: Vec<String>,
    pub programming_language: Vec<String>,
    pub utility: Vec<String>,
}

pub ghost struct PackagesView {
    pub software: Seq<Seq<char>>,
    pub service: Seq<Seq<char>>,
    pub font: Seq<Seq<char>>,
    pub programming_language: Seq<Seq<char>>,
    pub utility: Seq<Seq<char>>,
}

impl View for Packages {
    type V = PackagesView;

    open spec fn view(&self) -> PackagesView {
        PackagesView {
            software: names(self.software@),
            service: names(self.service@),
            font: names(self.font@),
            programming_language: names(self.programming_language@),
            utility: names(self.utility@),
        }
    }
}

impl PackagesView {
    /// Every package named, category after category in install order.
    pub open spec fn all(self) -> Seq<Seq<char>> {
        self.software + self.service + self.font + self.programming_language + self.utility
    }
}

impl Default for Packages {
    fn default() -> (r: Packages)
        ensures
            r@.software.len() == 0,
            r@.service.len() == 0,
            r@.font.len() == 0,
            r@.programming_language.len() == 0,
            r@.utility.len() == 0,
    {
        Packages {
            software: Vec::new(),
            service: Vec::new(),
            font: Vec::new(),
            programming_language: Vec::new(),
            utility: Vec::new(),
        }
    }
}

/// The yes/no answers that switch the optional steps on or off.
#[derive(Clone, Copy, Debug, PartialEq, Eq, Structural)]
pub struct Settings {
    pub install_paru: bool,
    pub install_bedrock: bool,
    pub install_kde_theme: bool,
    pub install_omf: bool,
    pub change_shell: bool,
    pub enable_services: bool,
    pub normalize_audio: bool,
    pub set_git_config: bool,
}

impl Settings {
    pub open spec fn all_off(self) -> bool {
        !self.install_paru && !self.install_bedrock && !self.install_kde_theme
            && !self.install_omf && !self.change_shell && !self.enable_services
            && !self.normalize_audio && !self.set_git_config
    }
}

impl Default for Settings {
    fn default() -> (r: Settings)
        ensures
            r.all_off(),
    {
        Settings {
            install_paru: false,
            install_bedrock: false,
            install_kde_theme: false,
            install_omf: false,
            change_shell: false,
            enable_services: false,
            normalize_audio: false,
            set_git_config: false,
        }
    }
}

/// The chosen packages and settings; built once, then only read.
pub struct Installer {
    pub packages: Packages,
    pub settings: Settings,
}

impl Default for Installer {
    fn default() -> (r: Installer)
        ensures
            r.packages@.all().len() == 0,
            r.settings.all_off(),
    {
        let packages = Packages::default();
        proof {
            assert(packages@.all().len() == 0);
        }
        Installer { packages, settings: Settings::default() }
    }
}

} // verus!
