//! What holds of every plan and every service selection.

use vstd::prelude::*;
use crate::model::{PackagesView, Settings};
use crate::plan::{
    configure_phase, finish_plan, install_line, install_lines, install_phase, only_if,
    remove_paru_line, runs, StepView,
};
use crate::services::{enable_line, enable_lines, has_no_unit, in_unit_table, service_unit};

verus! {

/// Enabling the services of two selections one after the other gives the
/// commands of the joined selection.
pub proof fn lemma_enable_lines_append(a: Seq<Seq<char>>, b: Seq<Seq<char>>)
    ensures
        enable_lines(a + b) == enable_lines(a) + enable_lines(b),
    decreases b.len(),
{
    if b.len() == 0 {
        assert(a + b =~= a);
        assert(enable_lines(a) + enable_lines(b) =~= enable_lines(a));
    } else {
        lemma_enable_lines_append(a, b.drop_last());
        assert((a + b).drop_last() =~= a + b.drop_last());
        assert((a + b).last() == b.last());
        match service_unit(b.last()) {
            Some(u) => {
                assert(enable_lines(a) + enable_lines(b) =~= (enable_lines(a) + enable_lines(
                    b.drop_last(),
                )).push(enable_line(u)));
            },
            None => {},
        }
    }
}

/// A selected package that the table marks as having no systemd unit gets
/// no enable command: the commands are exactly those of the entries before
/// it followed by those of the entries after it.
pub proof fn lemma_unitless_service_not_enabled(
    before: Seq<Seq<char>>,
    package: Seq<char>,
    after: Seq<Seq<char>>,
)
    requires
        has_no_unit(package),
    ensures
        enable_lines(before.push(package) + after) == enable_lines(before) + enable_lines(after),
{
    lemma_enable_lines_append(before.push(package), after);
    assert(before.push(package).drop_last() =~= before);
}

/// A selected package that the unit table does not name is enabled under
/// its own name, in its place among the other commands.
pub proof fn lemma_unknown_service_enabled_by_name(
    before: Seq<Seq<char>>,
    package: Seq<char>,
    after: Seq<Seq<char>>,
)
    requires
        !in_unit_table(package),
    ensures
        enable_lines(before.push(package) + after) == enable_lines(before) + seq![
            enable_line(package),
        ] + enable_lines(after),
{
    lemma_enable_lines_append(before.push(package), after);
    assert(before.push(package).drop_last() =~= before);
}

/// A step of the upgrade and install phase: a `paru -S...` command.
spec fn early_step(v: StepView) -> bool {
    v matches StepView::Run(l) && l.len() > 6 && l[0] == 'p' && l[6] == 'S'
}

/// A step that may follow the removal of the AUR helper.
spec fn late_step(v: StepView) -> bool {
    match v {
        StepView::Run(l) => l.len() > 6 && l != remove_paru_line() && (l[0] != 'p' || l[6] == 'R'),
        StepView::Download(_, _) => true,
        _ => false,
    }
}

proof fn lemma_install_line_shape(q: Seq<char>)
    ensures
        early_step(StepView::Run(install_line(q))),
{
    reveal_strlit("paru -S ");
    assert(("paru -S "@ + q)[0] == 'p');
    assert(("paru -S "@ + q)[6] == 'S');
}

proof fn lemma_install_runs_early(x: Seq<Seq<char>>)
    ensures
        forall|j: int| 0 <= j < x.len() ==> early_step(#[trigger] runs(install_lines(x))[j]),
{
    assert forall|j: int| 0 <= j < x.len() implies early_step(#[trigger] runs(install_lines(x))[j]) by {
        lemma_install_line_shape(x[j]);
    }
}

proof fn lemma_install_phase_early(p: PackagesView)
    ensures
        forall|j: int| 0 <= j < install_phase(p).len() ==> early_step(#[trigger] install_phase(p)[j]),
{
    reveal_strlit("paru -Syu");
    lemma_install_runs_early(p.software);
    lemma_install_runs_early(p.service);
    lemma_install_runs_early(p.font);
    lemma_install_runs_early(p.programming_language);
    lemma_install_runs_early(p.utility);
}

proof fn lemma_enable_lines_shape(s: Seq<Seq<char>>)
    ensures
        forall|j: int| 0 <= j < enable_lines(s).len() ==> late_step(
            #[trigger] runs(enable_lines(s))[j],
        ),
    decreases s.len(),
{
    reveal_strlit("sudo systemctl enable --now ");
    reveal_strlit("paru -Rns paru");
    if s.len() > 0 {
        lemma_enable_lines_shape(s.drop_last());
        let rest = enable_lines(s.drop_last());
        assert forall|j: int| 0 <= j < enable_lines(s).len() implies late_step(
            #[trigger] runs(enable_lines(s))[j],
        ) by {
            if j < rest.len() {
                assert(runs(enable_lines(s))[j] == runs(rest)[j]);
            } else {
                let u = service_unit(s.last()).unwrap();
                let l = enable_line(u);
                assert(l[0] == 's');
                assert(l.len() > 6);
                assert(l != remove_paru_line()) by {
                    assert(l[0] != remove_paru_line()[0]);
                }
            }
        }
    }
}

proof fn lemma_configure_phase_late(p: PackagesView, s: Settings)
    ensures
        forall|j: int| 0 <= j < configure_phase(p, s).len() ==> late_step(
            #[trigger] configure_phase(p, s)[j],
        ),
{
    reveal_strlit("paru -Rns rustup");
    reveal_strlit("paru -Rns paru");
    reveal_strlit("fish install");
    reveal_strlit("rm install");
    reveal_strlit("chsh -s /usr/bin/fish");
    reveal_strlit("sh ./bedrock-linux-0.7.27-x86_64.sh --hijack");
    reveal_strlit("rm bedrock-linux-0.7.27-x86_64.sh");
    reveal_strlit("tldr --update");
    lemma_enable_lines_shape(p.service);
    assert("paru -Rns rustup"@ != remove_paru_line()) by {
        assert("paru -Rns rustup"@.len() != remove_paru_line().len());
    }
    assert(late_step(StepView::Run("paru -Rns rustup"@)));
    assert(late_step(StepView::Run("fish install"@)));
    assert(late_step(StepView::Run("rm install"@)));
    assert(late_step(StepView::Run("chsh -s /usr/bin/fish"@)));
    assert(late_step(StepView::Run("sh ./bedrock-linux-0.7.27-x86_64.sh --hijack"@)));
    assert(late_step(StepView::Run("rm bedrock-linux-0.7.27-x86_64.sh"@)));
    assert(late_step(StepView::Run("tldr --update"@)));
}

/// Where the plan removes the AUR helper: right after the install phase and
/// the git identity step.
pub open spec fn removal_position(p: PackagesView, s: Settings) -> int {
    (install_phase(p).len() + only_if(s.set_git_config, seq![StepView::AskGitIdentity]).len()) as int
}

/// When the AUR helper is not to be kept, the plan removes it exactly once,
/// and only after the system upgrade, every package installation and the
/// git identity step.
pub proof fn lemma_helper_removed_once_after_install(p: PackagesView, s: Settings)
    requires
        !s.install_paru,
    ensures
        ({
            let plan = finish_plan(p, s);
            let k = removal_position(p, s);
            &&& 0 <= k < plan.len()
            &&& plan[k] == StepView::Run(remove_paru_line())
            &&& forall|j: int|
                0 <= j < plan.len() && j != k ==> #[trigger] plan[j] != StepView::Run(
                    remove_paru_line(),
                )
            &&& forall|j: int|
                0 <= j < plan.len() && #[trigger] plan[j] == StepView::AskGitIdentity ==> j < k
            &&& forall|j: int, q: Seq<char>|
                #![trigger plan[j], install_line(q)]
                0 <= j < plan.len() && plan[j] == StepView::Run(install_line(q)) ==> j < k
            &&& forall|j: int|
                0 <= j < plan.len() && #[trigger] plan[j] == StepView::Run("paru -Syu"@) ==> j < k
        }),
{
    reveal_strlit("paru -Rns paru");
    reveal_strlit("paru -Syu");
    let a = install_phase(p);
    let g = only_if(s.set_git_config, seq![StepView::AskGitIdentity]);
    let c = configure_phase(p, s);
    let plan = finish_plan(p, s);
    let k: int = (a.len() + g.len()) as int;
    lemma_install_phase_early(p);
    lemma_configure_phase_late(p, s);
    assert(plan == a + g + seq![StepView::Run(remove_paru_line())] + c);
    assert(plan[k] == StepView::Run(remove_paru_line()));
    assert forall|j: int| 0 <= j < plan.len() implies {
        ||| (j < a.len() && early_step(#[trigger] plan[j]))
        ||| (a.len() <= j < k && plan[j] == StepView::AskGitIdentity)
        ||| j == k
        ||| (j > k && late_step(plan[j]))
    } by {
        if j < a.len() {
            assert(plan[j] == a[j]);
        } else if j < k {
            assert(plan[j] == g[j - a.len()]);
        } else if j > k {
            assert(plan[j] == c[j - k - 1]);
        }
    }
    assert forall|j: int, q: Seq<char>|
        0 <= j < plan.len() && #[trigger] plan[j] == StepView::Run(#[trigger] install_line(q)) implies j < k by {
        lemma_install_line_shape(q);
    }
    assert(remove_paru_line()[6] == 'R');
    assert("paru -Syu"@[6] == 'S');
}

} // verus!
