use post_archinstall::command::split_command;
use post_archinstall::model::{Installer, Packages, Settings};
use post_archinstall::plan::{
    contains_name, finish_install, git_config_commands, install_packages, install_rust_and_paru,
    Step,
};
use post_archinstall::services::{run_enable_services, unit_for_package, unit_rows};
use post_archinstall::prompt::{
    ask_for_user_input, get_bool_answer_to_question, get_list_from_packages, Answers,
};

fn strings(v: &[&str]) -> Vec<String> {
    v.iter().map(|s| s.to_string()).collect()
}

fn run(s: &str) -> Step {
    Step::Run(s.to_string())
}

fn packages(
    software: &[&str],
    service: &[&str],
    font: &[&str],
    language: &[&str],
    utility: &[&str],
) -> Packages {
    Packages {
        software: strings(software),
        service: strings(service),
        font: strings(font),
        programming_language: strings(language),
        utility: strings(utility),
    }
}

fn no_answers() -> Answers {
    Answers {
        software: vec![],
        service: vec![],
        font: vec![],
        programming_language: vec![],
        utility: vec![],
        install_paru: None,
        install_bedrock: None,
        install_kde_theme: None,
        install_omf: None,
        change_shell: None,
        enable_services: None,
        normalize_audio: None,
        set_git_config: None,
    }
}

#[test]
fn end_to_end_bluez_rustup_tealdeer() {
    let mut settings = Settings::default();
    settings.enable_services = true;
    settings.install_paru = true;
    settings.set_git_config = false;
    let install = Installer {
        packages: packages(&[], &["bluez"], &[], &["rustup"], &["tealdeer"]),
        settings,
    };
    let plan = finish_install(&install);
    assert_eq!(
        plan,
        vec![
            run("paru -Syu"),
            run("paru -S bluez --noconfirm"),
            run("paru -S rustup --noconfirm"),
            run("paru -S tealdeer --noconfirm"),
            run("sudo systemctl enable --now bluetooth.service"),
            run("tldr --update"),
        ]
    );
    assert!(!plan.contains(&run("paru -Rns paru")));
    assert!(!plan.contains(&run("paru -Rns rustup")));
}

#[test]
fn helper_removed_once_after_install_and_git() {
    let mut settings = Settings::default();
    settings.set_git_config = true;
    let install = Installer {
        packages: packages(&["firefox"], &["cups"], &["noto-fonts"], &["rustup"], &["htop"]),
        settings,
    };
    let plan = finish_install(&install);
    let removal = run("paru -Rns paru");
    let positions: Vec<usize> =
        (0..plan.len()).filter(|&i| plan[i] == removal).collect();
    assert_eq!(positions, vec![7]);
    assert_eq!(plan[6], Step::AskGitIdentity);
    assert_eq!(plan[5], run("paru -S htop --noconfirm"));
    assert_eq!(plan.len(), 8);
}

#[test]
fn all_options_plan() {
    let settings = Settings {
        install_paru: false,
        install_bedrock: true,
        install_kde_theme: true,
        install_omf: true,
        change_shell: true,
        enable_services: true,
        normalize_audio: true,
        set_git_config: false,
    };
    let install = Installer {
        packages: packages(&["tealdeer"], &["hplip", "sshd"], &[], &[], &[]),
        settings,
    };
    let plan = finish_install(&install);
    let bedrock = "bedrock-linux-0.7.27-x86_64.sh";
    assert_eq!(
        plan,
        vec![
            run("paru -Syu"),
            run("paru -S tealdeer --noconfirm"),
            run("paru -S hplip --noconfirm"),
            run("paru -S sshd --noconfirm"),
            run("paru -Rns paru"),
            run("paru -Rns rustup"),
            run("sudo systemctl enable --now sshd"),
            Step::Download(
                "https://raw.githubusercontent.com/oh-my-fish/oh-my-fish/master/bin/install"
                    .to_string(),
                "install".to_string(),
            ),
            run("fish install"),
            run("rm install"),
            run("chsh -s /usr/bin/fish"),
            Step::Download(
                format!(
                    "https://github.com/bedrocklinux/bedrocklinux-userland/releases/download/0.7.27/{}",
                    bedrock
                ),
                bedrock.to_string(),
            ),
            run("sh ./bedrock-linux-0.7.27-x86_64.sh --hijack"),
            run("rm bedrock-linux-0.7.27-x86_64.sh"),
            run("tldr --update"),
        ]
    );
}

#[test]
fn empty_install_plan() {
    let plan = finish_install(&Installer::default());
    assert_eq!(
        plan,
        vec![run("paru -Syu"), run("paru -Rns paru"), run("paru -Rns rustup")]
    );
}

#[test]
fn printer_driver_gets_no_enable_command() {
    let lines = run_enable_services(&strings(&[
        "hplip",
        "cups",
        "samsung-unified-driver",
        "samsung-unified-driver-printer",
        "bluez_utils",
    ]));
    assert_eq!(lines, strings(&["sudo systemctl enable --now cups.service"]));
}

#[test]
fn unknown_service_enabled_by_its_name() {
    let lines = run_enable_services(&strings(&["bluez", "docker", "sshd"]));
    assert_eq!(
        lines,
        strings(&[
            "sudo systemctl enable --now bluetooth.service",
            "sudo systemctl enable --now docker",
            "sudo systemctl enable --now sshd",
        ])
    );
    assert!(run_enable_services(&vec![]).is_empty());
}

#[test]
fn unit_table_lookup() {
    assert_eq!(unit_for_package(&"bluez".to_string()), Some("bluetooth.service".to_string()));
    assert_eq!(unit_for_package(&"cups".to_string()), Some("cups.service".to_string()));
    assert_eq!(unit_for_package(&"hplip".to_string()), None);
    assert_eq!(unit_for_package(&"nginx".to_string()), Some("nginx".to_string()));
}

#[test]
fn unit_table_rows() {
    let rows = unit_rows();
    assert_eq!(rows.len(), 6);
    assert_eq!(rows[0], ("bluez".to_string(), Some("bluetooth.service".to_string())));
    assert_eq!(rows[3], ("hplip".to_string(), None));
}

#[test]
fn install_commands_per_package() {
    assert_eq!(
        install_packages(&strings(&["git", "fish"])),
        strings(&["paru -S git --noconfirm", "paru -S fish --noconfirm"])
    );
    assert!(install_packages(&vec![]).is_empty());
}

#[test]
fn bootstrap_steps() {
    assert_eq!(
        install_rust_and_paru(),
        vec![
            run("sudo pacman -S rustup --noconfirm"),
            run("rustup install stable"),
            run("rustup default stable"),
            run("git clone https://aur.archlinux.org/paru-bin"),
            Step::RunIn("paru-bin".to_string(), "makepkg -si".to_string()),
            run("rm -rf paru-bin"),
        ]
    );
}

#[test]
fn git_identity_commands() {
    assert_eq!(
        git_config_commands("Jane Doe", "jane@example.org"),
        strings(&[
            "git config --global user.name \"Jane Doe\"",
            "git config --global user.email \"jane@example.org\"",
        ])
    );
}

#[test]
fn name_lookup() {
    let v = strings(&["a", "tealdeer"]);
    assert!(contains_name(&v, "tealdeer"));
    assert!(!contains_name(&v, "teal"));
    assert!(!contains_name(&vec![], "a"));
}

#[test]
fn split_into_program_and_arguments() {
    let (program, args) = split_command("sudo systemctl enable --now cups.service").unwrap();
    assert_eq!(program, "sudo");
    assert_eq!(args, strings(&["systemctl", "enable", "--now", "cups.service"]));
    let (program, args) = split_command("  rm \t install  ").unwrap();
    assert_eq!(program, "rm");
    assert_eq!(args, strings(&["install"]));
    assert_eq!(split_command(""), None);
    assert_eq!(split_command("   "), None);
}

#[test]
fn selection_comes_from_catalog() {
    let items = strings(&["a", "b", "c"]);
    assert_eq!(get_list_from_packages(&items, &vec![0, 2]), Some(strings(&["a", "c"])));
    assert_eq!(get_list_from_packages(&items, &vec![]), Some(vec![]));
    assert_eq!(get_list_from_packages(&items, &vec![1, 3]), None);
    assert_eq!(get_list_from_packages(&vec![], &vec![0]), None);
}

#[test]
fn skipped_confirmation_is_no() {
    assert!(!get_bool_answer_to_question(None));
    assert!(get_bool_answer_to_question(Some(true)));
    assert!(!get_bool_answer_to_question(Some(false)));
}

#[test]
fn answers_fill_the_installer() {
    let catalog = packages(&["firefox", "gimp"], &["bluez", "cups"], &["noto"], &["rustup", "go"], &["htop"]);
    let mut answers = no_answers();
    answers.software = vec![1];
    answers.service = vec![0, 1];
    answers.programming_language = vec![1];
    answers.install_paru = Some(true);
    answers.change_shell = Some(false);
    answers.set_git_config = None;
    answers.enable_services = Some(true);
    let install = ask_for_user_input(&catalog, Installer::default(), &answers).unwrap();
    assert_eq!(install.packages.software, strings(&["gimp"]));
    assert_eq!(install.packages.service, strings(&["bluez", "cups"]));
    assert!(install.packages.font.is_empty());
    assert_eq!(install.packages.programming_language, strings(&["go"]));
    assert!(install.packages.utility.is_empty());
    assert!(install.settings.install_paru);
    assert!(install.settings.enable_services);
    assert!(!install.settings.change_shell);
    assert!(!install.settings.set_git_config);
    assert!(!install.settings.install_bedrock);
}

#[test]
fn answers_outside_catalog_are_refused() {
    let catalog = packages(&["firefox"], &[], &[], &[], &[]);
    let mut answers = no_answers();
    answers.utility = vec![0];
    assert!(ask_for_user_input(&catalog, Installer::default(), &answers).is_none());
}

#[test]
fn defaults_are_empty_and_off() {
    let install = Installer::default();
    assert!(install.packages.software.is_empty());
    assert!(install.packages.utility.is_empty());
    assert_eq!(install.settings, Settings::default());
    assert!(!install.settings.install_paru);
    assert!(!install.settings.set_git_config);
}
