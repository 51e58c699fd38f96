use innu::uninstall::{
    confirms_uninstall, install_kind, package_removal_guidance, uninstall_plan, uninstall_report, InstallKind,
};

fn strings(items: &[&str]) -> Vec<String> {
    items.iter().map(|s| s.to_string()).collect()
}

#[test]
fn plan_lists_every_path() {
    let lines = uninstall_plan(&strings(&["/home/u/.local/bin/innu", "/home/u/.config/innu"]));
    assert_eq!(
        lines,
        strings(&[
            "This will remove the following Innu files if present:",
            "",
            "- /home/u/.local/bin/innu",
            "- /home/u/.config/innu",
            "",
        ])
    );
}

#[test]
fn only_the_word_uninstall_confirms() {
    assert!(confirms_uninstall("uninstall\n"));
    assert!(confirms_uninstall("  uninstall \r\n"));
    assert!(!confirms_uninstall("\n"));
    assert!(!confirms_uninstall("y\n"));
    assert!(!confirms_uninstall("Uninstall\n"));
    assert!(!confirms_uninstall("uninstall now\n"));
}

#[test]
fn report_with_nothing_removed() {
    let lines = uninstall_report(&Vec::new(), &strings(&["/a", "/b"]));
    assert_eq!(lines, strings(&["No installed Innu files were found.", "", "Already absent:", "- /a", "- /b"]));
}

#[test]
fn report_with_everything_removed() {
    let lines = uninstall_report(&strings(&["/a"]), &Vec::new());
    assert_eq!(lines, strings(&["", "Removed:", "- /a"]));
}

#[test]
fn report_with_both() {
    let lines = uninstall_report(&strings(&["/a"]), &strings(&["/b"]));
    assert_eq!(lines, strings(&["", "Removed:", "- /a", "", "Already absent:", "- /b"]));
}

#[test]
fn package_installs_are_recognised_by_their_location() {
    assert_eq!(install_kind("/usr/bin/innu"), InstallKind::PackageManaged);
    assert_eq!(install_kind("/usr/lib/innu/innu"), InstallKind::PackageManaged);
    assert_eq!(install_kind("/usr/local/bin/innu"), InstallKind::UserLocal);
    assert_eq!(install_kind("/home/u/.local/bin/innu"), InstallKind::UserLocal);
    assert_eq!(install_kind(""), InstallKind::UserLocal);
    assert_eq!(install_kind("/usr"), InstallKind::UserLocal);
}

#[test]
fn package_guidance_names_both_packages_and_the_user_data() {
    let lines = package_removal_guidance(&strings(&["/home/u/.config/autostart/innu.desktop", "/home/u/.config/innu"]));
    assert_eq!(
        lines,
        strings(&[
            "Innu was installed with a package manager. Remove it with the command for your package:",
            "",
            "- innu-bin: sudo pacman -Rns innu-bin",
            "- innu-git: sudo pacman -Rns innu-git",
            "",
            "Optionally remove your user data as well:",
            "- /home/u/.config/autostart/innu.desktop",
            "- /home/u/.config/innu",
        ])
    );
}
