//! The library against figment's own reading of a file and the environment.

use figment::providers::{Env, Format, Toml};
use figment::{Figment, Jail};
use rust_package::config::AppConfig;

const FILE: &str = "[database]\nurl = \"postgres://file\"\n\n[api]\nport = 8080\n";

/// What figment loads from `Config.toml` in the working directory and the
/// environment of the process.
fn by_figment() -> Option<(String, u16)> {
    let figment = Figment::new()
        .merge(Toml::file("Config.toml"))
        .merge(Env::prefixed("APP_").split("__"));
    let url = figment.extract_inner::<String>("database.url").ok()?;
    let port = figment.extract_inner::<u16>("api.port").ok()?;
    Some((url, port))
}

/// What the library loads from the same text and variables.
fn by_library(file: Option<&str>, vars: &[(&str, &str)]) -> Option<(String, u16)> {
    let vars: Vec<(String, String)> = vars
        .iter()
        .map(|(name, value)| (name.to_string(), value.to_string()))
        .collect();
    let config = AppConfig::load(file, &vars).ok()?;
    Some((config.database.url, config.api.port))
}

fn agree(file: Option<&str>, vars: &[(&str, &str)]) -> Option<(String, u16)> {
    let mut seen = None;
    Jail::expect_with(|jail| {
        jail.clear_env();
        if let Some(text) = file {
            jail.create_file("Config.toml", text)?;
        }
        for (name, value) in vars {
            jail.set_env(name, value);
        }
        let expected = by_figment();
        let got = by_library(file, vars);
        assert_eq!(got, expected, "file {:?}, variables {:?}", file, vars);
        seen = got;
        Ok(())
    });
    seen
}

#[test]
fn agrees_on_file_and_override() {
    assert_eq!(agree(Some(FILE), &[]), Some(("postgres://file".to_string(), 8080)));
    assert_eq!(
        agree(Some(FILE), &[("APP_API__PORT", "9090")]),
        Some(("postgres://file".to_string(), 9090))
    );
    assert_eq!(
        agree(None, &[("APP_DATABASE__URL", "sqlite://env"), ("APP_API__PORT", "1")]),
        Some(("sqlite://env".to_string(), 1))
    );
}

#[test]
fn agrees_on_failures() {
    assert_eq!(agree(None, &[]), None);
    assert_eq!(agree(Some("[api]\nport = 3000\n"), &[]), None);
    assert_eq!(agree(Some(FILE), &[("APP_API__PORT", "not-a-number")]), None);
    assert_eq!(agree(Some(FILE), &[("APP_API__PORT", "65536")]), None);
    assert_eq!(agree(Some(FILE), &[("APP_DATABASE__URL", "1234")]), None);
    assert_eq!(agree(Some("[database\nurl = "), &[("APP_API__PORT", "1")]), None);
}

#[test]
fn agrees_on_names() {
    for name in [
        "APP_API__PORT",
        "app_api__port",
        "App_Api__Port",
        "APP_API_PORT",
        "APP_API___PORT",
        "APP_API____PORT",
        "APP___API__PORT",
        "APP_API__PORT__",
        "APP_API.PORT",
        "APP_API..PORT",
        "APP_.API__PORT",
        "APP_API__PORT ",
        " APP_API__PORT",
        "APP_ API__PORT",
        "APP_API__ PORT",
        "APP_API __PORT",
        "\u{a0}APP_API__PORT\u{2003}",
        "APPAPI__PORT",
        "APP__API__PORT",
        "XAPP_API__PORT",
        "API__PORT",
        "APP_",
        "APP",
        "APP_API",
        "APP_API__PORT__X",
        "APP_\u{c4}PI__PORT",
    ] {
        agree(Some(FILE), &[(name, "9090")]);
    }
}

#[test]
fn agrees_on_values() {
    for value in [
        "9090",
        " 9090 ",
        "+9090",
        "09090",
        "0",
        "65535",
        "65536",
        "-1",
        "9090.0",
        "\"9090\"",
        "'9'",
        "true",
        "[9090]",
        "{port=9090}",
        "",
        "4294967296",
        "18446744073709551616",
        "0x10",
        "9_090",
    ] {
        agree(Some(FILE), &[("APP_API__PORT", value)]);
        agree(Some(FILE), &[("APP_DATABASE__URL", value)]);
        agree(Some(FILE), &[("APP_API", value)]);
        agree(Some(FILE), &[("APP_DATABASE", value)]);
    }
}

#[test]
fn agrees_on_urls() {
    for value in [
        "sqlite://env",
        "postgres://user:pw@host:5432/db",
        "a,b",
        "a b",
        " padded ",
        "\"quoted\"",
        "\"un\\\"escaped\"",
        "\"open",
        "[unclosed",
        "{a=b}",
        "x",
        "'x'",
        "false",
        "1.5",
        "1.5.2",
        "caf\u{e9}",
        "\"caf\u{e9}\"",
        "\"a\\tb\"",
        "\"a\\n caf\u{e9}\"",
        "caf\u{e9}\\n",
        "\"a\\qb\"",
        "\"a\\u00e9b\"",
        "[::1]:5432",
        "x[[[[[]]]]]",
        "x\"\u{e9}\\n\"",
        "true\"\u{e9}\\n\"",
        "\u{a0}\"\u{e9}\\n\"",
        "\"\u{e9}\" \\",
    ] {
        agree(Some(FILE), &[("APP_DATABASE__URL", value)]);
    }
}

#[test]
fn agrees_at_the_deepest_entries() {
    let arrays = format!("{}1{}", "[".repeat(36), "]".repeat(36));
    let tables = format!("{}1{}", "{a=".repeat(36), "}".repeat(36));
    let open_arrays = "[".repeat(36);
    let name = format!("APP_A{}", "__A".repeat(340));
    agree(Some(FILE), &[("APP_EXTRA", arrays.as_str())]);
    agree(Some(FILE), &[("APP_EXTRA", tables.as_str())]);
    agree(Some(FILE), &[("APP_DATABASE__URL", open_arrays.as_str())]);
    agree(Some(FILE), &[(name.as_str(), "1")]);
}

#[test]
fn agrees_on_tables_from_variables() {
    agree(Some(FILE), &[("APP_DATABASE", "{url=\"sqlite://table\"}")]);
    agree(Some(FILE), &[("APP_DATABASE", "{pool=3}")]);
    agree(Some(FILE), &[("APP_API", "{port=1}"), ("APP_DATABASE__POOL", "3")]);
    agree(None, &[("APP_API", "{port=1}"), ("APP_DATABASE", "{url=u}")]);
    agree(Some(FILE), &[("APP_DATABASE__URL__DEEPER", "x")]);
    agree(Some(FILE), &[("APP_EXTRA__A__B__C", "[1, [2, {k=[3]}]]")]);
}

#[test]
fn agrees_on_other_variables() {
    agree(
        Some(FILE),
        &[("PATH", "/usr/bin"), ("HOME", "/root"), ("APPLE", "1"), ("RUST_LOG", "debug")],
    );
}

/// The filter that `tracing_subscriber` itself takes from the environment
/// of the process, with `info` where it takes none.
fn filter_by_subscriber() -> String {
    tracing_subscriber::EnvFilter::try_from_default_env()
        .unwrap_or_else(|_| tracing_subscriber::EnvFilter::new("info"))
        .to_string()
}

/// The filter built from the directives that the library chooses.
fn filter_by_library(setting: Option<&str>) -> String {
    let directives = rust_package::telemetry::filter_directives(setting);
    tracing_subscriber::EnvFilter::try_new(directives)
        .expect("the chosen directives are a filter")
        .to_string()
}

#[test]
fn agrees_on_filters() {
    for setting in [
        None,
        Some("debug"),
        Some("info"),
        Some("off"),
        Some(""),
        Some(","),
        Some("warn,my_crate=trace"),
        Some(" warn , my_crate=debug "),
        Some("my_crate::module[span{field=1}]=info"),
        Some("crate1::mod1=warn=info,crate2=debug"),
        Some("crate1::mod1=noNumber"),
        Some("!"),
        Some("caf\u{e9}=debug"),
        Some("caf\u{e9} =debug"),
        Some("caf\u{e9}=debug, x=info"),
        Some("x=info ,caf\u{e9}=debug"),
    ] {
        Jail::expect_with(|jail| {
            jail.clear_env();
            if let Some(text) = setting {
                jail.set_env("RUST_LOG", text);
            }
            assert_eq!(filter_by_library(setting), filter_by_subscriber(), "{:?}", setting);
            Ok(())
        });
    }
}
