//! The shell-out text parsers: git, docker, the SSH configuration and the
//! WSL distribution listing, plus the command-building helpers.

use wsl_terminal::docker::{
    parse_docker_containers, parse_docker_images, parse_docker_status, parse_docker_volumes,
};
use wsl_terminal::git::{
    git_info_from, git_status_from, parse_ahead_behind, parse_git_branches, parse_git_log,
    parse_status_files,
};
use wsl_terminal::shell::{
    bash_escape, detached_window_id, expand_home, is_wsl_path, js_escape, shell_command,
    split_command, wsl_git_command_line, ShellKind,
};
use wsl_terminal::sshconfig::parse_ssh_config_text;
use wsl_terminal::wsl::{parse_distro_list, utf16_lossy_string, wsl_output_units};

#[test]
fn ahead_behind_counters_parse_leniently() {
    assert_eq!(parse_ahead_behind("2\t3\n"), (2, 3));
    assert_eq!(parse_ahead_behind("  7\t0  "), (7, 0));
    assert_eq!(parse_ahead_behind("x\ty"), (0, 0));
    assert_eq!(parse_ahead_behind("1"), (0, 0));
    assert_eq!(parse_ahead_behind("1\t2\t3"), (0, 0));
    assert_eq!(parse_ahead_behind("+4\t99999999999999999999"), (4, 0));
}

#[test]
fn porcelain_status_yields_staged_and_unstaged_entries() {
    let files = parse_status_files(" M unstaged.rs\nA  staged.rs\nMM both.rs\n?? new.rs\nx\n");
    let view: Vec<(&str, &str, bool)> = files
        .iter()
        .map(|f| (f.path.as_str(), f.status.as_str(), f.staged))
        .collect();
    assert_eq!(
        view,
        vec![
            ("unstaged.rs", "M", false),
            ("staged.rs", "A", true),
            ("both.rs", "M", true),
            ("both.rs", "M", false),
            ("new.rs", "?", false),
        ]
    );
}

#[test]
fn branch_listing_skips_head_pointers_and_marks_current() {
    let out = parse_git_branches(
        "* main origin/main\n  dev\n  remotes/origin/HEAD\n\n  feature/x origin/feature/x\n",
    );
    let view: Vec<(&str, bool, Option<&str>)> = out
        .iter()
        .map(|b| (b.name.as_str(), b.current, b.upstream.as_deref()))
        .collect();
    assert_eq!(
        view,
        vec![
            ("main", true, Some("origin/main")),
            ("dev", false, None),
            ("feature/x", false, Some("origin/feature/x")),
        ]
    );
}

#[test]
fn commit_log_lines_need_all_five_fields() {
    let out = parse_git_log(
        "abc123|abc|fix: a thing|Ada|2 days ago\nshort|line\n",
    );
    assert_eq!(out.len(), 1);
    assert_eq!(out[0].hash, "abc123");
    assert_eq!(out[0].short_hash, "abc");
    assert_eq!(out[0].message, "fix: a thing");
    assert_eq!(out[0].author, "Ada");
    assert_eq!(out[0].date, "2 days ago");

    let extra = parse_git_log("h|s|msg|Ada|3 weeks ago, 16:04|odd\n");
    assert_eq!(extra[0].date, "3 weeks ago, 16:04|odd");
}

#[test]
fn the_repository_summary_follows_the_captured_outputs() {
    let info = git_info_from(None, None, None);
    assert!(info.branch.is_none() && !info.is_dirty && info.ahead == 0 && info.behind == 0);

    let branch = String::from("main\n");
    let status = String::from(" M x\n");
    let ab = String::from("1\t2\n");
    let info = git_info_from(Some(&branch), Some(&status), Some(&ab));
    assert_eq!(info.branch.as_deref(), Some("main"));
    assert!(info.is_dirty);
    assert_eq!((info.ahead, info.behind), (1, 2));

    let clean = String::from("");
    let info = git_info_from(Some(&branch), Some(&clean), None);
    assert!(!info.is_dirty);
    assert_eq!((info.ahead, info.behind), (0, 0));
}

#[test]
fn the_full_status_assembles_all_four_outputs() {
    assert!(git_status_from(None, None, None, None).is_err());

    let branch = String::from("main\n");
    assert!(git_status_from(Some(&branch), None, None, None).is_err());

    let upstream = String::from("origin/main\n");
    let ab = String::from("3\t1\n");
    let status = String::from(" M a.rs\n");
    let res = git_status_from(Some(&branch), Some(&upstream), Some(&ab), Some(&status))
        .expect("a status");
    assert_eq!(res.branch, "main");
    assert_eq!(res.upstream.as_deref(), Some("origin/main"));
    assert_eq!((res.ahead, res.behind), (3, 1));
    assert_eq!(res.files.len(), 1);
    assert_eq!(res.files[0].path, "a.rs");

    let detached = git_status_from(Some(&branch), None, Some(&ab), Some(&status))
        .expect("a status");
    assert_eq!((detached.ahead, detached.behind), (0, 0));
}

#[test]
fn docker_status_flags_a_running_container() {
    let st = parse_docker_status("web|Up 2 hours|running\ndb|Exited (0)|exited\n\n");
    assert!(st.running);
    assert_eq!(st.containers.len(), 2);
    assert_eq!(st.containers[0].name, "web");
    assert!(st.containers[0].running);
    assert_eq!(st.containers[1].status, "Exited (0)");
    assert!(!st.containers[1].running);

    let idle = parse_docker_status("db|Exited (0)|exited\n");
    assert!(!idle.running);
}

#[test]
fn the_full_container_table_splits_ports_and_lowercases_state() {
    let out = parse_docker_containers(
        "id1|web|nginx|Up|Running|80/tcp, 443/tcp|2024\nbad|row\n",
    );
    assert_eq!(out.len(), 1);
    assert_eq!(out[0].state, "running");
    assert_eq!(out[0].ports, vec!["80/tcp", "443/tcp"]);
    assert_eq!(out[0].created, "2024");
}

#[test]
fn image_and_volume_tables_parse_their_fields() {
    let imgs = parse_docker_images("i1|repo|latest|10MB|2024\n");
    assert_eq!(imgs.len(), 1);
    assert_eq!(imgs[0].repository, "repo");

    let vols = parse_docker_volumes("v1|local|/mnt/v1\nv2|local\n");
    assert_eq!(vols.len(), 2);
    assert_eq!(vols[0].mountpoint, "/mnt/v1");
    assert_eq!(vols[1].mountpoint, "");
}

#[test]
fn ssh_config_blocks_become_host_entries() {
    let text = "# comment\nHost dev\n  HostName dev.example.com\n  USER root\n  Port 2222\n  \
                IdentityFile ~/.ssh/id_dev\n\nHost *\n  User nobody\n\nHost plain\n";
    let home = Some(String::from("/home/u"));
    let hosts = parse_ssh_config_text(text, &home);
    assert_eq!(hosts.len(), 2);
    assert_eq!(hosts[0].name, "dev");
    assert_eq!(hosts[0].host, "dev.example.com");
    assert_eq!(hosts[0].user.as_deref(), Some("root"));
    assert_eq!(hosts[0].port, 2222);
    assert_eq!(hosts[0].identity_file.as_deref(), Some("/home/u/.ssh/id_dev"));
    assert_eq!(hosts[1].name, "plain");
    assert_eq!(hosts[1].host, "plain");
    assert_eq!(hosts[1].port, 22);
    assert!(hosts[1].user.is_none());
}

#[test]
fn a_bad_port_falls_back_to_the_default() {
    let hosts = parse_ssh_config_text("Host a\n  Port many\n", &None);
    assert_eq!(hosts[0].port, 22);
}

#[test]
fn shell_commands_are_built_per_kind() {
    assert!(matches!(ShellKind::of_str("powershell"), ShellKind::PowerShell));
    assert!(matches!(ShellKind::of_str("cmd"), ShellKind::Cmd));
    assert!(matches!(ShellKind::of_str("anything"), ShellKind::Wsl));

    let c = shell_command(
        ShellKind::Wsl,
        &Some(String::from("Ubuntu")),
        &None,
        "C:\\Users\\u",
    );
    assert_eq!(c.program, "wsl.exe");
    assert_eq!(c.args, vec!["-d", "Ubuntu", "--cd", "~"]);
    assert!(c.cwd.is_none());

    let c = shell_command(ShellKind::PowerShell, &None, &None, "C:\\Users\\u");
    assert_eq!(c.program, "powershell.exe");
    assert_eq!(c.args, vec!["-NoLogo", "-NoExit"]);
    assert_eq!(c.cwd.as_deref(), Some("C:\\Users\\u"));

    let c = shell_command(ShellKind::Cmd, &None, &Some(String::from("D:\\w")), "C:\\Users\\u");
    assert_eq!(c.program, "cmd.exe");
    assert!(c.args.is_empty());
    assert_eq!(c.cwd.as_deref(), Some("D:\\w"));
}

#[test]
fn escaping_helpers_protect_their_quotes() {
    assert_eq!(bash_escape("it's"), "it'\\''s");
    assert_eq!(js_escape("a\\b'c"), "a\\\\b\\'c");
    assert_eq!(
        wsl_git_command_line(
            &vec![String::from("commit"), String::from("-m"), String::from("it's done")],
            "/home/u/repo",
        ),
        "cd '/home/u/repo' && git 'commit' '-m' 'it'\\''s done'"
    );
}

#[test]
fn path_helpers_read_wsl_paths_and_tildes() {
    assert!(is_wsl_path("/home/u"));
    assert!(!is_wsl_path("//server/share"));
    assert!(!is_wsl_path("C:\\Users"));
    assert!(!is_wsl_path(""));
    assert_eq!(expand_home("~/projects", "/home/u"), "/home/u/projects");
    assert_eq!(expand_home("~", "/home/u"), "/home/u");
    assert_eq!(expand_home("/abs", "/home/u"), "/abs");
    assert_eq!(detached_window_id("0123456789abcdef"), "detached-01234567");
}

#[test]
fn service_commands_split_into_program_and_arguments() {
    let (program, args) = split_command("npm  run dev").expect("a program");
    assert_eq!(program, "npm");
    assert_eq!(args, vec!["run", "dev"]);
    assert!(split_command("   ").is_none());
    assert!(split_command("").is_none());
}

#[test]
fn the_distro_listing_is_decoded_and_filtered() {
    let mut bytes: Vec<u8> = vec![0xff, 0xfe];
    for c in "Ubuntu\r\ndocker-desktop\r\n\r\nDebian\u{0}\r\n".encode_utf16() {
        bytes.extend_from_slice(&c.to_le_bytes());
    }
    let units = wsl_output_units(&bytes);
    let decoded = utf16_lossy_string(&units);
    let distros = parse_distro_list(&decoded);
    assert_eq!(distros, vec!["Ubuntu", "Debian"]);

    let no_bom = wsl_output_units(&[0x41, 0x00, 0x0a, 0x00]);
    assert_eq!(utf16_lossy_string(&no_bom), "A\n");
}
