//! Turning what the prompts returned into the installer record.

use vstd::prelude::*;
use crate::model::{names, Installer, Packages, Settings};

verus! {

/// Whether every position in `chosen` points into a list of `len` items.
pub open spec fn indices_valid(chosen: Seq<usize>, len: nat) -> bool {
    forall|k: int| 0 <= k < chosen.len() ==> chosen[k] < len
}

/// The items at the chosen positions, in the order of `chosen`.
pub open spec fn picked(items: Seq<Seq<char>>, chosen: Seq<usize>) -> Seq<Seq<char>> {
    chosen.map_values(|k: usize| items[k as int])
}

/// The items of `items` that a multi-select prompt reported by position.
/// Fails when a position lies outside the list.
pub fn get_list_from_packages(items: &Vec<String>, chosen: &Vec<usize>) -> (r: Option<Vec<String>>)
    ensures
        r is Some <==> indices_valid(chosen@, items@.len()),
        r matches Some(v) ==> names(v@) == picked(names(items@), chosen@),
        r matches Some(v) ==> forall|j: int|
            0 <= j < v@.len() ==> names(items@).contains(#[trigger] names(v@)[j]),
{
    let mut out: Vec<String> = Vec::new();
    let mut j: usize = 0;
    while j < chosen.len()
        invariant
            j <= chosen@.len(),
            indices_valid(chosen@.subrange(0, j as int), items@.len()),
            names(out@) == picked(names(items@), chosen@.subrange(0, j as int)),
        decreases chosen@.len() - j,
    {
        let k = chosen[j];
        if k >= items.len() {
            return None;
        }
        let ghost prev = out@;
        out.push(items[k].clone());
        j = j + 1;
        proof {
            assert(names(out@) =~= names(prev).push(names(items@)[k as int]));
            assert(chosen@.subrange(0, j as int) =~= chosen@.subrange(0, j - 1).push(k));
            assert(names(out@) =~= picked(names(items@), chosen@.subrange(0, j as int)));
        }
    }
    proof {
        assert(chosen@.subrange(0, j as int) =~= chosen@);
        assert forall|i: int| 0 <= i < out@.len() implies names(items@).contains(
            #[trigger] names(out@)[i],
        ) by {
            assert(names(out@)[i] == picked(names(items@), chosen@)[i]);
            assert(names(items@)[chosen@[i] as int] == names(out@)[i]);
        }
    }
    Some(out)
}

/// The answer to a yes/no prompt; a skipped prompt counts as no, whatever
/// default it offered.
pub fn get_bool_answer_to_question(answer: Option<bool>) -> (r: bool)
    ensures
        r == (answer == Some(true)),
        answer is None ==> !r,
{
    match answer {
        Some(b) => b,
        None => false,
    }
}

/// What the prompts returned: positions chosen in each catalog category, and
/// the answer to each yes/no question (`None` where it was skipped).
pub struct Answers {
    pub software: Vec<usize>,
    pub service: Vec<usize>,
    pub font: Vec<usize>,
    pub programming_language: Vec<usize>,
    pub utility: Vec<usize>,
    pub install_paru: Option<bool>,
    pub install_bedrock: Option<bool>,
    pub install_kde_theme: Option<bool>,
    pub install_omf: Option<bool>,
    pub change_shell: Option<bool>,
    pub enable_services: Option<bool>,
    pub normalize_audio: Option<bool>,
    pub set_git_config: Option<bool>,
}

/// Whether every chosen position points into its catalog category.
pub open spec fn answers_valid(c: Packages, a: Answers) -> bool {
    &&& indices_valid(a.software@, c.software@.len())
    &&& indices_valid(a.service@, c.service@.len())
    &&& indices_valid(a.font@, c.font@.len())
    &&& indices_valid(a.programming_language@, c.programming_language@.len())
    &&& indices_valid(a.utility@, c.utility@.len())
}

pub open spec fn yes(b: Option<bool>) -> bool {
    b == Some(true)
}

/// Fills `install` with the catalog entries and settings that the answers
/// name. Fails when a chosen position lies outside its category.
pub fn ask_for_user_input(packages: &Packages, install: Installer, answers: &Answers) -> (r: Option<Installer>)
    ensures
        r is Some <==> answers_valid(*packages, *answers),
        r matches Some(i) ==> {
            &&& i.packages@.software == picked(packages@.software, answers.software@)
            &&& i.packages@.service == picked(packages@.service, answers.service@)
            &&& i.packages@.font == picked(packages@.font, answers.font@)
            &&& i.packages@.programming_language
                == picked(packages@.programming_language, answers.programming_language@)
            &&& i.packages@.utility == picked(packages@.utility, answers.utility@)
            &&& i.settings.install_paru == yes(answers.install_paru)
            &&& i.settings.install_bedrock == yes(answers.install_bedrock)
            &&& i.settings.install_kde_theme == yes(answers.install_kde_theme)
            &&& i.settings.install_omf == yes(answers.install_omf)
            &&& i.settings.change_shell == yes(answers.change_shell)
            &&& i.settings.enable_services == yes(answers.enable_services)
            &&& i.settings.normalize_audio == yes(answers.normalize_audio)
            &&& i.settings.set_git_config == yes(answers.set_git_config)
        },
{
    let mut install = install;
    let software = get_list_from_packages(&packages.software, &answers.software);
    let service = get_list_from_packages(&packages.service, &answers.service);
    let font = get_list_from_packages(&packages.font, &answers.font);
    let language = get_list_from_packages(&packages.programming_language, &answers.programming_language);
    let utility = get_list_from_packages(&packages.utility, &answers.utility);
    match (software, service, font, language, utility) {
        (Some(software), Some(service), Some(font), Some(language), Some(utility)) => {
            install.packages = Packages {
                software,
                service,
                font,
                programming_language: language,
                utility,
            };
            install.settings = Settings {
                install_paru: get_bool_answer_to_question(answers.install_paru),
                install_bedrock: get_bool_answer_to_question(answers.install_bedrock),
                install_kde_theme: get_bool_answer_to_question(answers.install_kde_theme),
                install_omf: get_bool_answer_to_question(answers.install_omf),
                change_shell: get_bool_answer_to_question(answers.change_shell),
                enable_services: get_bool_answer_to_question(answers.enable_services),
                normalize_audio: get_bool_answer_to_question(answers.normalize_audio),
                set_git_config: get_bool_answer_to_question(answers.set_git_config),
            };
            Some(install)
        },
        _ => None,
    }
}

} // verus!
