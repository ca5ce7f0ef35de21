//! The ordered steps that carry out an installer record.

use vstd::prelude::*;
use crate::model::{names, Installer, Packages, PackagesView, Settings};
use crate::services::{enable_lines, run_enable_services};

verus! {

/// One external action of the setup.
#[derive(Clone, Debug, PartialEq, Eq)]
pub enum Step {
    /// Run a command line in the current directory.
    Run(String),
    /// Run a command line (second) in the given directory (first).
    RunIn(String, String),
    /// Fetch a URL (first) into a local file (second), following redirects.
    Download(String, String),
    /// Ask for the git user name and e-mail and run what
    /// `git_config_commands` makes of them.
    AskGitIdentity,
}

pub ghost enum StepView {
    Run(Seq<char>),
    RunIn(Seq<char>, Seq<char>),
    Download(Seq<char>, Seq<char>),
    AskGitIdentity,
}

impl View for Step {
    type V = StepView;

    open spec fn view(&self) -> StepView {
        match self {
            Step::Run(l) => StepView::Run(l@),
            Step::RunIn(d, l) => StepView::RunIn(d@, l@),
            Step::Download(u, f) => StepView::Download(u@, f@),
            Step::AskGitIdentity => StepView::AskGitIdentity,
        }
    }
}

pub open spec fn steps(v: Seq<Step>) -> Seq<StepView> {
    v.map_values(|s: Step| s@)
}

/// Each command line run in the current directory, in order.
pub open spec fn runs(lines: Seq<Seq<char>>) -> Seq<StepView> {
    lines.map_values(|l: Seq<char>| StepView::Run(l))
}

pub open spec fn install_line(p: Seq<char>) -> Seq<char> {
    "paru -S "@ + p + " --noconfirm"@
}

pub open spec fn install_lines(ps: Seq<Seq<char>>) -> Seq<Seq<char>> {
    ps.map_values(|p: Seq<char>| install_line(p))
}

/// Whether `v` holds a name equal to `s`.
pub fn contains_name(v: &Vec<String>, s: &str) -> (r: bool)
    ensures
        r == names(v@).contains(s@),
{
    let target = String::from_str(s);
    let mut i: usize = 0;
    while i < v.len()
        invariant
            i <= v@.len(),
            target@ == s@,
            forall|k: int| 0 <= k < i ==> names(v@)[k] != s@,
        decreases v@.len() - i,
    {
        if v[i] == target {
            proof {
                assert(names(v@)[i as int] == s@);
            }
            return true;
        }
        i = i + 1;
    }
    proof {
        if names(v@).contains(s@) {
            let k = choose|k: int| 0 <= k < names(v@).len() && names(v@)[k] == s@;
            assert(names(v@)[k] != s@);
        }
    }
    false
}

/// The command that installs each package, in order.
pub fn install_packages(packages: &Vec<String>) -> (r: Vec<String>)
    ensures
        names(r@) == install_lines(names(packages@)),
{
    let mut out: Vec<String> = Vec::new();
    let mut i: usize = 0;
    while i < packages.len()
        invariant
            i <= packages@.len(),
            names(out@) == install_lines(names(packages@).subrange(0, i as int)),
        decreases packages@.len() - i,
    {
        let ghost prev = out@;
        let line = String::from_str("paru -S ").concat(packages[i].as_str()).concat(" --noconfirm");
        assert(line@ == install_line(packages@[i as int]@));
        out.push(line);
        i = i + 1;
        proof {
            assert(names(out@) =~= names(prev).push(install_line(packages@[i - 1]@)));
            assert(names(packages@).subrange(0, i as int) =~= names(packages@).subrange(
                0,
                i - 1,
            ).push(packages@[i - 1]@));
            assert(names(out@) =~= install_lines(names(packages@).subrange(0, i as int)));
        }
    }
    proof {
        assert(names(packages@).subrange(0, i as int) =~= names(packages@));
    }
    out
}

pub open spec fn remove_paru_line() -> Seq<char> {
    "paru -Rns paru"@
}

pub open spec fn omf_url() -> Seq<char> {
    "https://raw.githubusercontent.com/oh-my-fish/oh-my-fish/master/bin/install"@
}

pub open spec fn bedrock_url() -> Seq<char> {
    "https://github.com/bedrocklinux/bedrocklinux-userland/releases/download/0.7.27/bedrock-linux-0.7.27-x86_64.sh"@
}

/// `s` where `c` holds, else nothing.
pub open spec fn only_if(c: bool, s: Seq<StepView>) -> Seq<StepView> {
    if c {
        s
    } else {
        seq![]
    }
}

/// Whether `p` was chosen in any category.
pub open spec fn installed(p: PackagesView, name: Seq<char>) -> bool {
    ||| p.software.contains(name)
    ||| p.service.contains(name)
    ||| p.font.contains(name)
    ||| p.programming_language.contains(name)
    ||| p.utility.contains(name)
}

/// The steps that install the chosen packages, category after category,
/// after a full system upgrade.
pub open spec fn install_phase(p: PackagesView) -> Seq<StepView> {
    seq![StepView::Run("paru -Syu"@)] + runs(install_lines(p.software)) + runs(
        install_lines(p.service),
    ) + runs(install_lines(p.font)) + runs(install_lines(p.programming_language)) + runs(
        install_lines(p.utility),
    )
}

/// The configuration steps that follow the installation.
pub open spec fn configure_phase(p: PackagesView, s: Settings) -> Seq<StepView> {
    only_if(!p.programming_language.contains("rustup"@), seq![StepView::Run("paru -Rns rustup"@)])
        + only_if(s.enable_services, runs(enable_lines(p.service))) + only_if(
        s.install_omf,
        seq![
            StepView::Download(omf_url(), "install"@),
            StepView::Run("fish install"@),
            StepView::Run("rm install"@),
        ],
    ) + only_if(s.change_shell, seq![StepView::Run("chsh -s /usr/bin/fish"@)]) + only_if(
        s.install_bedrock,
        seq![
            StepView::Download(bedrock_url(), "bedrock-linux-0.7.27-x86_64.sh"@),
            StepView::Run("sh ./bedrock-linux-0.7.27-x86_64.sh --hijack"@),
            StepView::Run("rm bedrock-linux-0.7.27-x86_64.sh"@),
        ],
    ) + only_if(installed(p, "tealdeer"@), seq![StepView::Run("tldr --update"@)])
}

/// Every step of the setup after the prompts, in order.
pub open spec fn finish_plan(p: PackagesView, s: Settings) -> Seq<StepView> {
    install_phase(p) + only_if(s.set_git_config, seq![StepView::AskGitIdentity]) + only_if(
        !s.install_paru,
        seq![StepView::Run(remove_paru_line())],
    ) + configure_phase(p, s)
}

/// Appends a run step for each line.
fn push_runs(plan: &mut Vec<Step>, lines: Vec<String>)
    ensures
        steps(final(plan)@) == steps(old(plan)@) + runs(names(lines@)),
{
    let ghost all = names(lines@);
    let ghost start = steps(plan@);
    let mut i: usize = 0;
    while i < lines.len()
        invariant
            i <= lines@.len(),
            names(lines@) == all,
            steps(plan@) == start + runs(all.subrange(0, i as int)),
        decreases lines@.len() - i,
    {
        let ghost prev = steps(plan@);
        let line = lines[i].clone();
        plan.push(Step::Run(line));
        i = i + 1;
        proof {
            assert(steps(plan@) =~= prev.push(StepView::Run(all[i - 1])));
            assert(all.subrange(0, i as int) =~= all.subrange(0, i - 1).push(all[i - 1]));
            assert(runs(all.subrange(0, i as int)) =~= runs(all.subrange(0, i - 1)).push(
                StepView::Run(all[i - 1]),
            ));
        }
    }
    proof {
        assert(all.subrange(0, i as int) =~= all);
    }
}

fn run(plan: &mut Vec<Step>, line: &str)
    ensures
        steps(final(plan)@) == steps(old(plan)@).push(StepView::Run(line@)),
{
    let ghost prev = steps(plan@);
    plan.push(Step::Run(String::from_str(line)));
    proof {
        assert(steps(plan@) =~= prev.push(StepView::Run(line@)));
    }
}

fn download(plan: &mut Vec<Step>, url: &str, file: &str)
    ensures
        steps(final(plan)@) == steps(old(plan)@).push(StepView::Download(url@, file@)),
{
    let ghost prev = steps(plan@);
    plan.push(Step::Download(String::from_str(url), String::from_str(file)));
    proof {
        assert(steps(plan@) =~= prev.push(StepView::Download(url@, file@)));
    }
}

fn plan_installs(p: &Packages) -> (r: Vec<Step>)
    ensures
        steps(r@) == install_phase(p@),
{
    let mut plan: Vec<Step> = Vec::new();
    run(&mut plan, "paru -Syu");
    push_runs(&mut plan, install_packages(&p.software));
    push_runs(&mut plan, install_packages(&p.service));
    push_runs(&mut plan, install_packages(&p.font));
    push_runs(&mut plan, install_packages(&p.programming_language));
    push_runs(&mut plan, install_packages(&p.utility));
    proof {
        assert(steps(plan@) =~= install_phase(p@));
    }
    plan
}

fn has_tealdeer(p: &Packages) -> (r: bool)
    ensures
        r == installed(p@, "tealdeer"@),
{
    contains_name(&p.software, "tealdeer") || contains_name(&p.service, "tealdeer")
        || contains_name(&p.font, "tealdeer") || contains_name(&p.programming_language, "tealdeer")
        || contains_name(&p.utility, "tealdeer")
}

fn plan_rustup_removal(plan: &mut Vec<Step>, p: &Packages)
    ensures
        steps(final(plan)@) == steps(old(plan)@) + only_if(
            !p@.programming_language.contains("rustup"@),
            seq![StepView::Run("paru -Rns rustup"@)],
        ),
{
    if !contains_name(&p.programming_language, "rustup") {
        run(plan, "paru -Rns rustup");
    } else {
        assert(steps(plan@) =~= steps(plan@) + seq![]);
    }
}

fn plan_services(plan: &mut Vec<Step>, p: &Packages, s: Settings)
    ensures
        steps(final(plan)@) == steps(old(plan)@) + only_if(s.enable_services, runs(enable_lines(p@.service))),
{
    if s.enable_services {
        push_runs(plan, run_enable_services(&p.service));
    } else {
        assert(steps(plan@) =~= steps(plan@) + seq![]);
    }
}

fn plan_omf(plan: &mut Vec<Step>, s: Settings)
    ensures
        steps(final(plan)@) == steps(old(plan)@) + only_if(
            s.install_omf,
            seq![
                StepView::Download(omf_url(), "install"@),
                StepView::Run("fish install"@),
                StepView::Run("rm install"@),
            ],
        ),
{
    let ghost g0 = steps(plan@);
    if s.install_omf {
        download(
            plan,
            "https://raw.githubusercontent.com/oh-my-fish/oh-my-fish/master/bin/install",
            "install",
        );
        run(plan, "fish install");
        run(plan, "rm install");
    }
    assert(steps(plan@) =~= g0 + only_if(
        s.install_omf,
        seq![
            StepView::Download(omf_url(), "install"@),
            StepView::Run("fish install"@),
            StepView::Run("rm install"@),
        ],
    ));
}

fn plan_shell(plan: &mut Vec<Step>, s: Settings)
    ensures
        steps(final(plan)@) == steps(old(plan)@) + only_if(
            s.change_shell,
            seq![StepView::Run("chsh -s /usr/bin/fish"@)],
        ),
{
    let ghost g0 = steps(plan@);
    if s.change_shell {
        run(plan, "chsh -s /usr/bin/fish");
    }
    assert(steps(plan@) =~= g0 + only_if(s.change_shell, seq![StepView::Run("chsh -s /usr/bin/fish"@)]));
}

fn plan_bedrock(plan: &mut Vec<Step>, s: Settings)
    ensures
        steps(final(plan)@) == steps(old(plan)@) + only_if(
            s.install_bedrock,
            seq![
                StepView::Download(bedrock_url(), "bedrock-linux-0.7.27-x86_64.sh"@),
                StepView::Run("sh ./bedrock-linux-0.7.27-x86_64.sh --hijack"@),
                StepView::Run("rm bedrock-linux-0.7.27-x86_64.sh"@),
            ],
        ),
{
    let ghost g0 = steps(plan@);
    if s.install_bedrock {
        download(
            plan,
            "https://github.com/bedrocklinux/bedrocklinux-userland/releases/download/0.7.27/bedrock-linux-0.7.27-x86_64.sh",
            "bedrock-linux-0.7.27-x86_64.sh",
        );
        run(plan, "sh ./bedrock-linux-0.7.27-x86_64.sh --hijack");
        run(plan, "rm bedrock-linux-0.7.27-x86_64.sh");
    }
    assert(steps(plan@) =~= g0 + only_if(
        s.install_bedrock,
        seq![
            StepView::Download(bedrock_url(), "bedrock-linux-0.7.27-x86_64.sh"@),
            StepView::Run("sh ./bedrock-linux-0.7.27-x86_64.sh --hijack"@),
            StepView::Run("rm bedrock-linux-0.7.27-x86_64.sh"@),
        ],
    ));
}

fn plan_tldr(plan: &mut Vec<Step>, p: &Packages)
    ensures
        steps(final(plan)@) == steps(old(plan)@) + only_if(
            installed(p@, "tealdeer"@),
            seq![StepView::Run("tldr --update"@)],
        ),
{
    let ghost g0 = steps(plan@);
    if has_tealdeer(p) {
        run(plan, "tldr --update");
    }
    assert(steps(plan@) =~= g0 + only_if(installed(p@, "tealdeer"@), seq![StepView::Run("tldr --update"@)]));
}

fn plan_add_ons(plan: &mut Vec<Step>, p: &Packages, s: Settings)
    ensures
        steps(final(plan)@) == steps(old(plan)@) + configure_phase(p@, s),
{
    let ghost g0 = steps(plan@);
    plan_rustup_removal(plan, p);
    plan_services(plan, p, s);
    plan_omf(plan, s);
    plan_shell(plan, s);
    plan_bedrock(plan, s);
    plan_tldr(plan, p);
    assert(steps(plan@) =~= g0 + configure_phase(p@, s));
}

/// The steps that carry out `install`: upgrade, install every chosen package,
/// set the git identity, remove what was only needed for the setup, enable
/// services, and the optional add-ons.
pub fn finish_install(install: &Installer) -> (r: Vec<Step>)
    ensures
        steps(r@) == finish_plan(install.packages@, install.settings),
{
    let p = &install.packages;
    let s = install.settings;
    let mut plan = plan_installs(p);
    let ghost g0 = steps(plan@);
    if s.set_git_config {
        plan.push(Step::AskGitIdentity);
    }
    let ghost w1 = only_if(s.set_git_config, seq![StepView::AskGitIdentity]);
    assert(steps(plan@) =~= g0 + w1);
    if !s.install_paru {
        run(&mut plan, "paru -Rns paru");
    }
    let ghost w2 = only_if(!s.install_paru, seq![StepView::Run(remove_paru_line())]);
    assert(steps(plan@) =~= g0 + w1 + w2);
    plan_add_ons(&mut plan, p, s);
    assert(steps(plan@) =~= g0 + w1 + w2 + configure_phase(p@, s));
    plan
}

/// The steps that come before the prompts: install the Rust toolchain, then
/// build and install the paru AUR helper in a fresh clone, and remove the
/// clone.
pub fn install_rust_and_paru() -> (r: Vec<Step>)
    ensures
        steps(r@) == seq![
            StepView::Run("sudo pacman -S rustup --noconfirm"@),
            StepView::Run("rustup install stable"@),
            StepView::Run("rustup default stable"@),
            StepView::Run("git clone https://aur.archlinux.org/paru-bin"@),
            StepView::RunIn("paru-bin"@, "makepkg -si"@),
            StepView::Run("rm -rf paru-bin"@),
        ],
{
    let mut plan: Vec<Step> = Vec::new();
    run(&mut plan, "sudo pacman -S rustup --noconfirm");
    run(&mut plan, "rustup install stable");
    run(&mut plan, "rustup default stable");
    run(&mut plan, "git clone https://aur.archlinux.org/paru-bin");
    let ghost prev = steps(plan@);
    plan.push(Step::RunIn(String::from_str("paru-bin"), String::from_str("makepkg -si")));
    proof {
        assert(steps(plan@) =~= prev.push(StepView::RunIn("paru-bin"@, "makepkg -si"@)));
    }
    run(&mut plan, "rm -rf paru-bin");
    proof {
        assert(steps(plan@) =~= seq![
            StepView::Run("sudo pacman -S rustup --noconfirm"@),
            StepView::Run("rustup install stable"@),
            StepView::Run("rustup default stable"@),
            StepView::Run("git clone https://aur.archlinux.org/paru-bin"@),
            StepView::RunIn("paru-bin"@, "makepkg -si"@),
            StepView::Run("rm -rf paru-bin"@),
        ]);
    }
    plan
}

pub open spec fn git_name_line(name: Seq<char>) -> Seq<char> {
    "git config --global user.name \""@ + name + "\""@
}

pub open spec fn git_email_line(email: Seq<char>) -> Seq<char> {
    "git config --global user.email \""@ + email + "\""@
}

/// The two commands that set the global git user name and e-mail.
pub fn git_config_commands(name: &str, email: &str) -> (r: Vec<String>)
    ensures
        names(r@) == seq![git_name_line(name@), git_email_line(email@)],
{
    let mut out: Vec<String> = Vec::new();
    out.push(String::from_str("git config --global user.name \"").concat(name).concat("\""));
    out.push(String::from_str("git config --global user.email \"").concat(email).concat("\""));
    proof {
        assert(names(out@) =~= seq![git_name_line(name@), git_email_line(email@)]);
    }
    out
}

} // verus!
