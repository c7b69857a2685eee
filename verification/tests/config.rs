use brr::api::ApiClient;
use brr::artifact::{extraction_plan, parent_of, ArchiveEntry};
use brr::attach::{attach_repo, choose_slug, AttachArguments};
use brr::config_global;
use brr::config_local::{JobConfig, LocalConfig, ProjectConfig};
use brr::global_config::{detach_repos, ConnectionConfig, GlobalConfig, RepoConfig};
use brr::init;
use brr::login::store_login_token;
use brr::secrets::secret_value;

#[test]
fn attach_test_adds_a() {
    assert_eq!(2 + 2, 4);
}

#[test]
fn init_test_adds_a() {
    assert_eq!(2 + 2, 4);
}

fn global(domain_control: Option<&str>, domain_scheduler: Option<&str>) -> config_global::GlobalConfig {
    config_global::GlobalConfig {
        connection: Some(config_global::ConnectionConfig {
            access_token: Some("tok".to_string()),
            control_domain: domain_control.map(|s| s.to_string()),
            scheduler_domain: domain_scheduler.map(|s| s.to_string()),
        }),
    }
}

#[test]
fn hosts_follow_the_configured_domains() {
    let c = global(None, None);
    assert_eq!(c.control_domain(), "buildrecall.com");
    assert_eq!(c.scheduler_domain(), "scheduler.buildrecall.com");
    assert_eq!(c.control_host(), "https://buildrecall.com");
    assert_eq!(c.scheduler_host(), "https://scheduler.buildrecall.com");
    assert_eq!(c.scheduler_ws_host(), "wss://scheduler.buildrecall.com");
    assert_eq!(c.git_host(), "recalls+git://scheduler.buildrecall.com");

    let dev = global(Some("localhost:8080"), Some("localhost:7980"));
    assert_eq!(dev.control_host(), "http://localhost:8080");
    assert_eq!(dev.scheduler_host(), "http://localhost:7980");
    assert_eq!(dev.scheduler_ws_host(), "ws://localhost:7980");
    assert_eq!(dev.git_host(), "recall+git://localhost:7980");

    let bare = config_global::GlobalConfig { connection: None };
    assert_eq!(bare.control_host(), "https://buildrecall.com");
}

#[test]
fn access_token_prefers_the_config_over_the_environment() {
    let c = global(None, None);
    assert_eq!(
        c.access_token(Some("env".to_string())),
        Some("tok".to_string())
    );
    let bare = config_global::GlobalConfig { connection: None };
    assert_eq!(
        bare.access_token(Some("env".to_string())),
        Some("env".to_string())
    );
    assert_eq!(bare.access_token(None), None);
    assert_eq!(config_global::api_key_env_var(), "BUILDRECALL_API_KEY");
}

#[test]
fn client_urls_follow_the_config() {
    let client = ApiClient::new(global(None, None));
    assert_eq!(client.get_control_host(), "https://buildrecall.com");
    assert_eq!(client.login_url(), "https://buildrecall.com/v1/cli/login");
    assert_eq!(client.projects_url(), "https://buildrecall.com/v1/cli/projects");
    assert_eq!(client.invites_url(), "https://buildrecall.com/v1/cli/invites");
    assert_eq!(
        client.secrets_url("myproj"),
        "https://buildrecall.com/v1/cli/projects/myproj/secrets"
    );
    assert_eq!(
        client.pull_channel_url("project_slug=myproj"),
        "wss://scheduler.buildrecall.com/pull?project_slug=myproj"
    );
    assert_eq!(client.token(None), Some("tok".to_string()));
}

fn repo(id: &str, name: &str, path: &str) -> RepoConfig {
    RepoConfig {
        id: id.to_string(),
        name: name.to_string(),
        path: path.to_string(),
    }
}

#[test]
fn repo_lookup_and_detach() {
    let cfg = GlobalConfig {
        connection: Some(ConnectionConfig {
            access_token: Some("tok".to_string()),
            control_host: None,
            scheduler_host: None,
        }),
        repos: Some(vec![
            repo("id-a", "alpha", "/w/a"),
            repo("id-b", "beta", "/w/b"),
        ]),
    };
    assert_eq!(cfg.control_host(), "https://buildrecall.com");
    assert_eq!(
        cfg.scheduler_host(),
        "recalls+git://worker.buildrecall.com"
    );
    assert_eq!(cfg.access_token(), Some("tok".to_string()));

    let by_id = cfg.repo_config_by_id("id-b").unwrap();
    assert_eq!(by_id.name, "beta");
    assert!(cfg.repo_config_by_id("id-c").is_none());

    let by_path = cfg.repo_config_of_pathbuf("/w/a").unwrap();
    assert_eq!(by_path.id, "id-a");
    assert!(cfg.repo_config_of_pathbuf("/w/c").is_none());

    let after = detach_repos(cfg, &"/w/a".to_string());
    {
        let repos = after.repos.as_ref().unwrap();
        assert_eq!(repos.len(), 1);
        assert_eq!(repos[0].id, "id-b");
    }

    let after2 = detach_repos(after, &"/w/b".to_string());
    assert!(after2.repos.is_none());
}

#[test]
fn attach_puts_the_new_repo_first() {
    let cfg = GlobalConfig {
        connection: None,
        repos: Some(vec![repo("id-a", "alpha", "/w/a")]),
    };
    let out = attach_repo(cfg, repo("id-b", "beta", "/w/b"));
    let repos = out.repos.unwrap();
    assert_eq!(repos.len(), 2);
    assert_eq!(repos[0].id, "id-b");
    assert_eq!(repos[1].id, "id-a");
}

#[test]
fn slug_defaults_to_the_folder_name() {
    assert_eq!(
        choose_slug(
            AttachArguments {
                slug: Some("given".to_string())
            },
            "folder".to_string()
        ),
        "given"
    );
    assert_eq!(
        choose_slug(AttachArguments { slug: None }, "folder".to_string()),
        "folder"
    );
}

#[test]
fn login_stores_the_token_and_pins_the_domains() {
    let before = global(Some("localhost:8080"), None);
    let after = store_login_token(&before, "fresh".to_string());
    let conn = after.connection.unwrap();
    assert_eq!(conn.access_token, Some("fresh".to_string()));
    assert_eq!(conn.control_domain, Some("localhost:8080".to_string()));
    assert_eq!(
        conn.scheduler_domain,
        Some("scheduler.buildrecall.com".to_string())
    );
}

#[test]
fn init_names_the_project_and_keeps_the_jobs() {
    let cfg = LocalConfig {
        project: None,
        jobs: Some(vec![JobConfig {
            name: Some("build".to_string()),
            run: Some("make".to_string()),
            artifacts: None,
            env: None,
        }]),
    };
    let out = init::set_project_name(cfg, "myproj".to_string());
    assert_eq!(out.project.unwrap().name, Some("myproj".to_string()));
    assert_eq!(out.jobs.as_ref().unwrap().len(), 1);
    assert_eq!(out.jobs.unwrap()[0].name, Some("build".to_string()));
}

#[test]
fn local_config_getters_copy_what_is_there() {
    let cfg = LocalConfig {
        project: Some(ProjectConfig {
            name: Some("p".to_string()),
        }),
        jobs: Some(vec![JobConfig {
            name: Some("build".to_string()),
            run: None,
            artifacts: Some(vec!["out/bin".to_string()]),
            env: Some(vec![("KEY".to_string(), "VAL".to_string())]),
        }]),
    };
    assert_eq!(cfg.project().name, Some("p".to_string()));
    let jobs = cfg.jobs();
    assert_eq!(jobs.len(), 1);
    assert_eq!(jobs[0].name, Some("build".to_string()));
    assert_eq!(jobs[0].artifacts, Some(vec!["out/bin".to_string()]));
    assert_eq!(
        jobs[0].env,
        Some(vec![("KEY".to_string(), "VAL".to_string())])
    );

    let empty = LocalConfig {
        project: None,
        jobs: None,
    };
    assert_eq!(empty.project().name, None);
    assert!(empty.jobs().is_empty());
}

#[test]
fn secret_value_prefers_the_argument_over_stdin() {
    assert_eq!(
        secret_value(Some("arg".to_string()), "piped".to_string()),
        "arg"
    );
    assert_eq!(secret_value(None, "piped".to_string()), "piped");
}

#[test]
fn every_archive_entry_lands_under_the_working_directory() {
    // extraction writes each entry at its archive-relative path, creating
    // missing parent directories first
    let entries = vec![
        ArchiveEntry {
            rel_path: "a/b/c.txt".to_string(),
            data: b"data1".to_vec(),
        },
        ArchiveEntry {
            rel_path: "top.txt".to_string(),
            data: b"data2".to_vec(),
        },
    ];
    let ops = extraction_plan(&"/work/dir".to_string(), &entries);
    assert_eq!(ops.len(), 2);
    assert_eq!(ops[0].file_path, "/work/dir/a/b/c.txt");
    assert_eq!(ops[0].parent_dir, "/work/dir/a/b");
    assert_eq!(ops[0].data, b"data1".to_vec());
    assert_eq!(ops[1].file_path, "/work/dir/top.txt");
    assert_eq!(ops[1].parent_dir, "/work/dir");
    assert_eq!(ops[1].data, b"data2".to_vec());
}

#[test]
fn parent_of_a_path() {
    assert_eq!(parent_of(&"a/b/c".to_string()), "a/b");
    assert_eq!(parent_of(&"c".to_string()), "");
    assert_eq!(parent_of(&"a/".to_string()), "a");
    assert_eq!(parent_of(&"".to_string()), "");
}
