use drillbit::backends::{
    status_ok, Action, Backend, CloudBackend, Event, FetchError, GitHubBackend, Kind,
    LocalBackend, Stage, Step,
};
use drillbit::manifest::Plugin;
use drillbit::web::WebClient;

fn abort(error: FetchError) -> Step {
    Step { stage: Stage::Start, action: Action::Abort { error } }
}

#[test]
fn only_the_2xx_class_is_success() {
    assert!(status_ok(200));
    assert!(status_ok(204));
    assert!(status_ok(299));
    assert!(!status_ok(199));
    assert!(!status_ok(300));
    assert!(!status_ok(404));
    assert!(!status_ok(0));
    assert!(!status_ok(u16::MAX));
}

#[test]
fn local_plugin_id_joins_cwd_and_file_name() {
    let backend = LocalBackend::new();
    let plugin = Plugin::Local("assets/x.rbxm".to_string());
    assert_eq!(backend.plugin_id(&plugin, "a", "proj"), "proj_x.rbxm");
    assert_eq!(backend.try_plugin_id(&plugin, "a", "proj"), Some("proj_x.rbxm".to_string()));
}

#[test]
fn local_plugin_id_ignores_the_key() {
    let backend = LocalBackend::new();
    let plugin = Plugin::Local("tools/build.luau".to_string());
    assert_eq!(backend.plugin_id(&plugin, "one", "game"), backend.plugin_id(&plugin, "two", "game"));
    assert_eq!(backend.plugin_id(&plugin, "one", "game"), "game_build.luau");
}

#[test]
fn local_plugin_id_skips_trailing_current_directory() {
    let backend = LocalBackend::new();
    let plugin = Plugin::Local("assets/x.rbxm/.".to_string());
    assert_eq!(backend.plugin_id(&plugin, "a", "proj"), "proj_x.rbxm");
}

#[test]
fn local_path_without_file_name_has_no_id() {
    let backend = LocalBackend::new();
    assert_eq!(backend.try_plugin_id(&Plugin::Local("assets/..".to_string()), "a", "proj"), None);
    assert_eq!(backend.try_plugin_id(&Plugin::Local("".to_string()), "a", "proj"), None);
    assert_eq!(backend.try_plugin_id(&Plugin::Cloud(1), "a", "proj"), None);
}

#[test]
fn local_stem_of_joins_with_an_underscore() {
    assert_eq!(LocalBackend::stem_of("proj", "x.lua"), "proj_x.lua");
    assert_eq!(LocalBackend::stem_of("", ""), "_");
}

#[test]
fn luau_is_installed_as_lua() {
    assert_eq!(LocalBackend::extension_override(Some("luau".to_string())), Some("lua".to_string()));
}

#[test]
fn other_local_extensions_are_kept() {
    assert_eq!(LocalBackend::extension_override(Some("lua".to_string())), None);
    assert_eq!(LocalBackend::extension_override(Some("rbxm".to_string())), None);
    assert_eq!(LocalBackend::extension_override(None), None);
}

#[test]
fn local_download_reads_the_file() {
    let mut backend = LocalBackend::new();
    let plugin = Plugin::Local("assets/x.rbxm".to_string());
    assert_eq!(
        backend.download(&plugin, Stage::Start, Event::Begin),
        Step { stage: Stage::Reading, action: Action::ReadFile { path: "assets/x.rbxm".to_string() } }
    );
    assert_eq!(
        backend.download(&plugin, Stage::Reading, Event::Contents(vec![1, 2, 3])),
        Step { stage: Stage::Start, action: Action::Deliver { data: vec![1, 2, 3], extension: None } }
    );
}

#[test]
fn local_download_of_luau_overrides_the_extension() {
    let mut backend = LocalBackend::new();
    let plugin = Plugin::Local("src/init.luau".to_string());
    assert_eq!(
        backend.download(&plugin, Stage::Reading, Event::Contents(vec![9])),
        Step {
            stage: Stage::Start,
            action: Action::Deliver { data: vec![9], extension: Some("lua".to_string()) }
        }
    );
}

#[test]
fn local_download_fails_when_the_file_cannot_be_read() {
    let mut backend = LocalBackend::new();
    let plugin = Plugin::Local("assets/x.rbxm".to_string());
    assert_eq!(backend.download(&plugin, Stage::Reading, Event::Failed), abort(FetchError::Read));
}

#[test]
fn local_backend_refuses_other_kinds() {
    let mut backend = LocalBackend::new();
    let step = backend.download(&Plugin::Cloud(1), Stage::Start, Event::Begin);
    assert_eq!(step, abort(FetchError::WrongKind(Kind::Local)));
    match step.action {
        Action::Abort { error } => {
            assert_eq!(error.message(), "LocalBackend can only handle Local plugins")
        }
        _ => panic!("a local backend took up a cloud plugin"),
    }
    assert_eq!(
        backend.download(&Plugin::GitHub("https://h/x.lua".to_string()), Stage::Reading, Event::Contents(vec![1])),
        abort(FetchError::WrongKind(Kind::Local))
    );
}

#[test]
fn local_backend_refuses_events_out_of_turn() {
    let mut backend = LocalBackend::new();
    let plugin = Plugin::Local("assets/x.rbxm".to_string());
    assert_eq!(
        backend.download(&plugin, Stage::Start, Event::Contents(vec![1])),
        abort(FetchError::OutOfTurn)
    );
    assert_eq!(
        backend.download(&plugin, Stage::Reading, Event::Status(200)),
        abort(FetchError::OutOfTurn)
    );
    assert_eq!(
        backend.download(&plugin, Stage::Body, Event::Contents(vec![1])),
        abort(FetchError::OutOfTurn)
    );
}

#[test]
fn cloud_plugin_id_joins_cwd_key_and_id() {
    let backend = CloudBackend::new();
    assert_eq!(backend.plugin_id(&Plugin::Cloud(12345), "c", "proj"), "proj_c_12345");
    assert_eq!(backend.plugin_id(&Plugin::Cloud(0), "key", "w"), "w_key_0");
}

#[test]
fn metadata_address_holds_the_id() {
    assert_eq!(
        CloudBackend::metadata_address(12345),
        "https://assetdelivery.roblox.com/v2/asset?id=12345"
    );
}

#[test]
fn cloud_download_asks_for_the_credential_first() {
    let mut backend = CloudBackend::new();
    let plugin = Plugin::Cloud(7);
    assert_eq!(
        backend.download(&plugin, Stage::Start, Event::Begin),
        Step { stage: Stage::Credential, action: Action::ObtainCredential }
    );
    assert_eq!(
        backend.download(&plugin, Stage::Credential, Event::Credential("secret".to_string())),
        Step {
            stage: Stage::Metadata,
            action: Action::Get {
                url: "https://assetdelivery.roblox.com/v2/asset?id=7".to_string(),
                cookie: Some("secret".to_string()),
            }
        }
    );
}

#[test]
fn cloud_download_runs_to_delivery() {
    let mut backend = CloudBackend::with_cookie("secret".to_string());
    let plugin = Plugin::Cloud(7);
    assert_eq!(
        backend.download(&plugin, Stage::Metadata, Event::Status(200)),
        Step { stage: Stage::Locations, action: Action::DecodeLocations }
    );
    assert_eq!(
        backend.download(
            &plugin,
            Stage::Locations,
            Event::Locations(vec!["https://cdn/one".to_string(), "https://cdn/two".to_string()])
        ),
        Step {
            stage: Stage::File,
            action: Action::Get {
                url: "https://cdn/one".to_string(),
                cookie: Some("secret".to_string()),
            }
        }
    );
    assert_eq!(
        backend.download(&plugin, Stage::File, Event::Status(206)),
        Step { stage: Stage::Body, action: Action::ReadBody }
    );
    assert_eq!(
        backend.download(&plugin, Stage::Body, Event::Contents(vec![4, 5])),
        Step {
            stage: Stage::Start,
            action: Action::Deliver { data: vec![4, 5], extension: Some("rbxm".to_string()) }
        }
    );
}

#[test]
fn cloud_backend_keeps_its_credential() {
    let mut backend = CloudBackend::new();
    backend.download(&Plugin::Cloud(1), Stage::Credential, Event::Credential("kept".to_string()));
    assert_eq!(
        backend.download(&Plugin::Cloud(2), Stage::Start, Event::Begin),
        Step {
            stage: Stage::Metadata,
            action: Action::Get {
                url: "https://assetdelivery.roblox.com/v2/asset?id=2".to_string(),
                cookie: Some("kept".to_string()),
            }
        }
    );
}

#[test]
fn cloud_download_fails_without_credential() {
    let mut backend = CloudBackend::new();
    assert_eq!(
        backend.download(&Plugin::Cloud(1), Stage::Credential, Event::CredentialUnavailable),
        abort(FetchError::Credential)
    );
    assert_eq!(
        backend.download(&Plugin::Cloud(1), Stage::Start, Event::Begin),
        Step { stage: Stage::Credential, action: Action::ObtainCredential }
    );
}

#[test]
fn cloud_metadata_status_outside_2xx_aborts() {
    let mut backend = CloudBackend::with_cookie("c".to_string());
    assert_eq!(
        backend.download(&Plugin::Cloud(1), Stage::Metadata, Event::Status(404)),
        abort(FetchError::RequestStatus(404))
    );
    assert_eq!(
        backend.download(&Plugin::Cloud(1), Stage::Metadata, Event::Status(300)),
        abort(FetchError::RequestStatus(300))
    );
}

#[test]
fn cloud_file_status_outside_2xx_aborts() {
    let mut backend = CloudBackend::with_cookie("c".to_string());
    assert_eq!(
        backend.download(&Plugin::Cloud(1), Stage::File, Event::Status(500)),
        abort(FetchError::DownloadStatus(500))
    );
    assert_eq!(
        backend.download(&Plugin::Cloud(1), Stage::File, Event::Status(199)),
        abort(FetchError::DownloadStatus(199))
    );
}

#[test]
fn cloud_metadata_without_locations_aborts() {
    let mut backend = CloudBackend::with_cookie("c".to_string());
    let step = backend.download(&Plugin::Cloud(12345), Stage::Locations, Event::Locations(Vec::new()));
    assert_eq!(step, abort(FetchError::NoLocations));
    assert_eq!(FetchError::NoLocations.message(), "No download locations found");
}

#[test]
fn cloud_transport_failure_aborts() {
    let mut backend = CloudBackend::with_cookie("c".to_string());
    for stage in [Stage::Metadata, Stage::Locations, Stage::File, Stage::Body] {
        assert_eq!(
            backend.download(&Plugin::Cloud(1), stage, Event::Failed),
            abort(FetchError::Transport)
        );
    }
}

#[test]
fn cloud_backend_refuses_other_kinds_and_turns() {
    let mut backend = CloudBackend::with_cookie("c".to_string());
    assert_eq!(
        backend.download(&Plugin::Local("x.lua".to_string()), Stage::Start, Event::Begin),
        abort(FetchError::WrongKind(Kind::Cloud))
    );
    assert_eq!(
        backend.download(&Plugin::Cloud(1), Stage::Metadata, Event::Contents(vec![1])),
        abort(FetchError::OutOfTurn)
    );
    assert_eq!(
        backend.download(&Plugin::Cloud(1), Stage::Reading, Event::Contents(vec![1])),
        abort(FetchError::OutOfTurn)
    );
}

#[test]
fn github_plugin_id_joins_cwd_and_basename() {
    let backend = GitHubBackend::new();
    let plugin =
        Plugin::GitHub("https://github.com/o/r/releases/download/v1/plugin.rbxm".to_string());
    assert_eq!(backend.plugin_id(&plugin, "g", "proj"), "proj_plugin.rbxm");
}

#[test]
fn github_plugin_id_of_url_without_slash_is_the_url() {
    let backend = GitHubBackend::new();
    assert_eq!(backend.plugin_id(&Plugin::GitHub("asset".to_string()), "g", "p"), "p_asset");
    assert_eq!(backend.plugin_id(&Plugin::GitHub("a/b/".to_string()), "g", "p"), "p_");
    assert_eq!(backend.plugin_id(&Plugin::GitHub("/".to_string()), "g", "p"), "p_");
}

#[test]
fn github_plugin_id_of_url_without_segments_is_the_placeholder() {
    let backend = GitHubBackend::new();
    assert_eq!(backend.plugin_id(&Plugin::GitHub("".to_string()), "g", "proj"), "proj_unknown");
    assert_eq!(GitHubBackend::basename_of(""), "unknown");
    assert_eq!(GitHubBackend::basename_of("https://h/dl/tool.rbxm"), "tool.rbxm");
    assert_eq!(GitHubBackend::basename_of("dir/"), "");
}

#[test]
fn github_extension_is_what_follows_the_last_dot() {
    assert_eq!(
        GitHubBackend::extension_of("https://github.com/o/r/releases/download/v1/plugin.rbxm"),
        Some("rbxm".to_string())
    );
    assert_eq!(
        GitHubBackend::extension_of("https://github.com/o/r/releases/download/v1.2/p.tar.lua"),
        Some("lua".to_string())
    );
    assert_eq!(GitHubBackend::extension_of("a.b.c"), Some("c".to_string()));
    assert_eq!(GitHubBackend::extension_of("trailing."), Some("".to_string()));
}

#[test]
fn github_url_with_extension_free_path_has_no_extension() {
    assert_eq!(GitHubBackend::extension_of("https://example.com/dl/tool"), None);
    assert_eq!(GitHubBackend::extension_of("https://example.com/v1.2/tool"), None);
    assert_eq!(GitHubBackend::extension_of("https://example.com/dl.d/"), None);
    assert_eq!(GitHubBackend::extension_of("localhost/asset"), None);
    assert_eq!(GitHubBackend::extension_of(""), None);
}

#[test]
fn github_download_runs_to_delivery() {
    let mut backend = GitHubBackend::new();
    let plugin = Plugin::GitHub("https://example.com/dl/tool.rbxmx".to_string());
    assert_eq!(
        backend.download(&plugin, Stage::Start, Event::Begin),
        Step {
            stage: Stage::File,
            action: Action::Get { url: "https://example.com/dl/tool.rbxmx".to_string(), cookie: None }
        }
    );
    assert_eq!(
        backend.download(&plugin, Stage::File, Event::Status(200)),
        Step { stage: Stage::Body, action: Action::ReadBody }
    );
    assert_eq!(
        backend.download(&plugin, Stage::Body, Event::Contents(vec![8])),
        Step {
            stage: Stage::Start,
            action: Action::Deliver { data: vec![8], extension: Some("rbxmx".to_string()) }
        }
    );
}

#[test]
fn github_status_outside_2xx_aborts() {
    let mut backend = GitHubBackend::new();
    let plugin = Plugin::GitHub("https://example.com/dl/tool.rbxmx".to_string());
    assert_eq!(
        backend.download(&plugin, Stage::File, Event::Status(403)),
        abort(FetchError::ReleaseStatus(403))
    );
    assert_eq!(backend.download(&plugin, Stage::File, Event::Failed), abort(FetchError::Transport));
    assert_eq!(
        backend.download(&Plugin::Cloud(3), Stage::Start, Event::Begin),
        abort(FetchError::WrongKind(Kind::GitHub))
    );
    assert_eq!(
        backend.download(&plugin, Stage::Start, Event::Status(200)),
        abort(FetchError::OutOfTurn)
    );
}

#[test]
fn fetch_error_messages() {
    assert_eq!(FetchError::RequestStatus(404).message(), "Request failed with status: 404");
    assert_eq!(FetchError::DownloadStatus(500).message(), "Download failed with status: 500");
    assert_eq!(
        FetchError::ReleaseStatus(403).message(),
        "GitHub release download failed with status: 403"
    );
    assert_eq!(FetchError::Credential.message(), "Couldn't get Roblox cookie");
    assert_eq!(FetchError::Read.message(), "Failed to read plugin");
    assert_eq!(FetchError::Transport.message(), "Request could not be completed");
    assert_eq!(
        FetchError::WrongKind(Kind::Local).message(),
        "LocalBackend can only handle Local plugins"
    );
    assert_eq!(
        FetchError::WrongKind(Kind::Cloud).message(),
        "CloudBackend can only handle Cloud plugins"
    );
    assert_eq!(
        FetchError::WrongKind(Kind::GitHub).message(),
        "GitHubBackend can only handle GitHub plugins"
    );
    assert_eq!(FetchError::OutOfTurn.message(), "Unexpected event");
}

#[test]
fn web_client_needs_a_credential() {
    assert_eq!(WebClient::new(None).unwrap_err(), FetchError::Credential);
    assert!(WebClient::new(Some("c".to_string())).is_ok());
}

#[test]
fn web_client_downloads_bytes_without_extension() {
    let client = WebClient::new(Some("c".to_string())).unwrap();
    assert_eq!(
        client.download_plugin(5, Stage::Start, Event::Begin),
        Step {
            stage: Stage::Metadata,
            action: Action::Get {
                url: "https://assetdelivery.roblox.com/v2/asset?id=5".to_string(),
                cookie: Some("c".to_string()),
            }
        }
    );
    assert_eq!(
        client.download_plugin(5, Stage::Body, Event::Contents(vec![1, 2])),
        Step { stage: Stage::Start, action: Action::Deliver { data: vec![1, 2], extension: None } }
    );
    assert_eq!(
        client.download_plugin(5, Stage::Metadata, Event::Status(401)),
        abort(FetchError::RequestStatus(401))
    );
    assert_eq!(
        client.download_plugin(5, Stage::Locations, Event::Locations(Vec::new())),
        abort(FetchError::NoLocations)
    );
}
