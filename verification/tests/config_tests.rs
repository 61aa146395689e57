use peeksy::cli::cli::{confirmed, is_image, rename_file, Args, Commands, RenameRefusal};
use peeksy::config::Config as PrintedConfig;
use peeksy::configs::config::{read_answer, Config};
use peeksy::configs::setup::{
    default_config_setup, get_config_path, get_prompt_path, initial_path_setup,
    initial_prompt_setup, initial_setup, SetupPlan, SetupProbe, DEFAULT_MODEL, DEFAULT_PROMPT,
    EMPTY_CONFIG,
};
use peeksy::files::macos::{get_finder_selection, get_finder_selection_single, parse_selection};
use peeksy::utils::ss::{get_clean_path, get_screenshot_dir, CommandOutput, LocationError};

fn config(key: Option<&str>, path: Option<&str>, model: Option<&str>) -> Config {
    Config {
        openai_api_key: key.map(|s| s.to_string()),
        openai_prompt_file_path: path.map(|s| s.to_string()),
        openai_model: model.map(|s| s.to_string()),
    }
}

fn printed(success: bool, stdout: &str) -> Option<CommandOutput> {
    Some(CommandOutput { success, stdout: stdout.to_string() })
}

#[test]
fn ready_needs_key_prompt_and_model() {
    assert!(config(Some("k"), Some("p"), Some("m")).ready());
    assert!(!config(None, Some("p"), Some("m")).ready());
    assert!(!config(Some(""), Some("p"), Some("m")).ready());
    assert!(!config(Some("k"), None, Some("m")).ready());
    assert!(!config(Some("k"), Some(""), Some("m")).ready());
    assert!(!config(Some("k"), Some("p"), None).ready());
    assert!(!config(Some("k"), Some("p"), Some("")).ready());
    assert!(!config(None, None, None).ready());
    assert!(config(Some(" "), Some(" "), Some(" ")).ready());
}

#[test]
fn values_exist_when_set_and_not_empty() {
    let c = config(Some("k"), Some(""), None);
    assert!(c.openai_api_key_exists());
    assert!(!c.openai_prompt_file_path_exists());
    assert!(!c.openai_model_exists());
    assert_eq!(c.get_openai_api_key(), Some("k".to_string()));
    assert_eq!(c.get_openai_prompt_file_path(), Some(String::new()));
    assert_eq!(c.get_openai_model(), None);
}

#[test]
fn answers_replace_and_empty_answers_keep() {
    let mut c = config(Some("old-key"), Some("/old/prompt.txt"), None);
    let updated = c.edit_config("  new-key \n", "\n", " gpt-4o-mini\n");
    assert!(updated);
    assert_eq!(c.openai_api_key.as_deref(), Some("new-key"));
    assert_eq!(c.openai_prompt_file_path.as_deref(), Some("/old/prompt.txt"));
    assert_eq!(c.openai_model.as_deref(), Some("gpt-4o-mini"));

    let mut c = config(Some("old-key"), None, Some("m"));
    let updated = c.edit_config("\n", "   ", "");
    assert!(!updated);
    assert_eq!(c.openai_api_key.as_deref(), Some("old-key"));
    assert_eq!(c.openai_prompt_file_path, None);
    assert_eq!(c.openai_model.as_deref(), Some("m"));

    let mut c = config(None, None, None);
    assert!(c.edit_config("", "/p.txt\n", ""));
    assert_eq!(c.openai_prompt_file_path.as_deref(), Some("/p.txt"));
    assert_eq!(read_answer(" a b \n"), Some("a b".to_string()));
    assert_eq!(read_answer(" \t\n"), None);
}

#[test]
fn first_run_puts_in_place_what_is_missing() {
    let nothing = SetupProbe { prompt_exists: false, directory_exists: false, config_exists: false };
    assert_eq!(
        initial_setup(nothing),
        SetupPlan { write_prompt: true, create_directory: true, write_config: true }
    );
    let all = SetupProbe { prompt_exists: true, directory_exists: true, config_exists: true };
    assert_eq!(
        initial_setup(all),
        SetupPlan { write_prompt: false, create_directory: false, write_config: false }
    );
    let some = SetupProbe { prompt_exists: true, directory_exists: true, config_exists: false };
    assert_eq!(
        initial_setup(some),
        SetupPlan { write_prompt: false, create_directory: false, write_config: true }
    );
    assert!(initial_prompt_setup(false));
    assert!(!initial_prompt_setup(true));
    assert_eq!(
        initial_path_setup(false, true),
        SetupPlan { write_prompt: false, create_directory: true, write_config: false }
    );
    assert_eq!(get_config_path("/cfg"), "/cfg/peeksy/peeksy_config.json");
    assert_eq!(get_prompt_path("/cfg"), "/cfg/peeksy/prompt.txt");
    assert_eq!(EMPTY_CONFIG, "{\n  \"openai_api_key\": \"\"\n}");
    let empty: serde_json::Value = serde_json::from_str(EMPTY_CONFIG).unwrap();
    assert_eq!(empty["openai_api_key"], serde_json::Value::String(String::new()));
    assert!(DEFAULT_PROMPT.starts_with("\n    Analyze the attached image"));
    assert!(DEFAULT_PROMPT.ends_with("with no extra explanation or punctuation."));
    assert!(DEFAULT_PROMPT.contains("1. Use lowercase letters only."));
}

#[test]
fn defaults_fill_what_the_configuration_lacks() {
    let mut c = config(Some(""), None, None);
    assert!(default_config_setup(&mut c, "/cfg"));
    assert_eq!(c.openai_api_key.as_deref(), Some(""));
    assert_eq!(c.openai_prompt_file_path.as_deref(), Some("/cfg/peeksy/prompt.txt"));
    assert_eq!(c.openai_model.as_deref(), Some("gpt-4o"));
    assert_eq!(DEFAULT_MODEL, "gpt-4o");

    let mut c = config(Some("k"), Some("/mine.txt"), Some(""));
    assert!(default_config_setup(&mut c, "/cfg"));
    assert_eq!(c.openai_prompt_file_path.as_deref(), Some("/mine.txt"));
    assert_eq!(c.openai_model.as_deref(), Some("gpt-4o"));

    let mut c = config(None, Some("/mine.txt"), Some("m"));
    assert!(!default_config_setup(&mut c, "/cfg"));
    assert_eq!(c.openai_api_key, None);
    assert_eq!(c.openai_prompt_file_path.as_deref(), Some("/mine.txt"));
    assert_eq!(c.openai_model.as_deref(), Some("m"));
}

#[test]
fn printed_configuration_is_cut_out() {
    let out = "12:00:01 [INFO] starting\n{\n  \"openai_api_key\": \"k\",\n  \"openai_model\": null\n}\ndone\n";
    assert_eq!(
        PrintedConfig::filter(out),
        Some("{\n  \"openai_api_key\": \"k\",\n  \"openai_model\": null\n}".to_string())
    );
    assert_eq!(PrintedConfig::filter("{\r\n \"a\": 1\r\n}\r\n"), Some("{\n \"a\": 1\n}".to_string()));
    assert_eq!(PrintedConfig::filter(""), Some(String::new()));
    assert_eq!(PrintedConfig::filter("no object here\nat all"), Some("no object here".to_string()));
    assert_eq!(PrintedConfig::filter("{}"), Some("{}".to_string()));
    assert_eq!(PrintedConfig::filter("{ \"a\": 1 }\nlog"), Some("{ \"a\": 1 }".to_string()));
    assert_eq!(PrintedConfig::filter("x\n}\n{\n"), None);
    assert_eq!(PrintedConfig::filter("{\n}\n{\n1\n}"), Some("{\n1\n}".to_string()));
    assert_eq!(PrintedConfig::filter("a\nb\n}\nc"), Some("a\nb\n}".to_string()));
}

#[test]
fn rename_by_hand_checks_readiness_and_the_file() {
    let ready = config(Some("k"), Some("/p.txt"), Some("m"));
    let manager = rename_file(&ready, "Describe.".to_string(), "/pics/a.JPG").unwrap();
    assert_eq!(manager.ai().authorization(), "Bearer k");
    let doc = manager.ai().payload("");
    assert_eq!(doc.member("model").unwrap().as_text().unwrap(), "m");
    let parts = doc.member("messages").unwrap().item(1).unwrap().member("content").unwrap();
    assert_eq!(parts.item(0).unwrap().member("text").unwrap().as_text().unwrap(), "Describe.");

    let refused = rename_file(&ready, "p".to_string(), "/pics/a.pdf");
    assert!(matches!(&refused, Err(RenameRefusal::NotAnImage { file_name }) if file_name == "/pics/a.pdf"));
    let unready = config(None, Some("/p.txt"), Some("m"));
    assert!(matches!(rename_file(&unready, "p".to_string(), "/pics/a.jpg"), Err(RenameRefusal::NotReady)));
    assert!(matches!(rename_file(&unready, "p".to_string(), "/pics/a.pdf"), Err(RenameRefusal::NotReady)));
    assert!(is_image("a.webp"));
    assert!(!is_image("a.txt"));
}

#[test]
fn only_y_confirms() {
    assert!(confirmed("y"));
    assert!(confirmed("y\n"));
    assert!(confirmed("  y \r\n"));
    for no in ["", "\n", "Y", "yes", "n", "y y", "yy"] {
        assert!(!confirmed(no), "{:?}", no);
    }
}

#[test]
fn arguments_hold_their_command() {
    let args = Args::new(Commands::Rename { file_path: "/a.png".to_string() });
    assert!(matches!(args.execute(), Commands::Rename { file_path } if file_path == "/a.png"));
    assert!(matches!(Args::new(Commands::Daemon).execute(), Commands::Daemon));
    assert!(matches!(Args::new(Commands::Start).command, Commands::Start));
}

#[test]
fn finder_selection_is_read_line_by_line() {
    let out = "  /Users/me/a.png\n/Users/me/b c.jpg  \n\n   \n/Users/me/d.gif\r\n";
    assert_eq!(
        get_finder_selection(printed(true, out)),
        Some(vec![
            "/Users/me/a.png".to_string(),
            "/Users/me/b c.jpg".to_string(),
            "/Users/me/d.gif".to_string()
        ])
    );
    assert_eq!(get_finder_selection_single(printed(true, out)), Some("/Users/me/a.png".to_string()));
    assert_eq!(get_finder_selection(printed(true, "")), None);
    assert_eq!(get_finder_selection(printed(true, " \n \n")), None);
    assert_eq!(get_finder_selection(printed(false, "/Users/me/a.png")), None);
    assert_eq!(get_finder_selection(None), None);
    assert_eq!(get_finder_selection_single(printed(true, "\n")), None);
    assert_eq!(get_finder_selection_single(None), None);
    assert_eq!(parse_selection("a\n b \n"), vec!["a", "b"]);
    assert!(parse_selection("").is_empty());
}

#[test]
fn configured_location_is_cleaned() {
    assert_eq!(get_clean_path("~/Pictures/Shots".to_string(), "/Users/me").unwrap(), "/Users/me/Pictures/Shots");
    assert_eq!(get_clean_path("~/".to_string(), "/Users/me").unwrap(), "/Users/me/");
    assert_eq!(get_clean_path("/Users/me/Desktop".to_string(), "/Users/me").unwrap(), "/Users/me/Desktop");
    assert_eq!(get_clean_path("/Users/me".to_string(), "/Users/me").unwrap(), "/Users/me");
    for raw in ["/Users/melanie/Desktop", "/tmp/shots", "~", "~other/x", "Desktop", ""] {
        let err = get_clean_path(raw.to_string(), "/Users/me");
        assert!(matches!(&err, Err(LocationError::NotUnderHome { raw: r }) if r == raw), "{:?}", raw);
    }
}

#[test]
fn screenshot_directory_falls_back_to_the_desktop() {
    let desktop = || Some("/Users/me/Desktop".to_string());
    let home = Some("/Users/me");
    assert_eq!(get_screenshot_dir(desktop(), printed(true, "~/Shots\n"), home), "/Users/me/Shots");
    assert_eq!(
        get_screenshot_dir(desktop(), printed(true, " /Users/me/Pictures \n"), home),
        "/Users/me/Pictures"
    );
    assert_eq!(get_screenshot_dir(desktop(), printed(true, "/Volumes/x\n"), home), "/Users/me/Desktop");
    assert_eq!(get_screenshot_dir(desktop(), printed(false, "~/Shots\n"), home), "/Users/me/Desktop");
    assert_eq!(get_screenshot_dir(desktop(), None, home), "/Users/me/Desktop");
    assert_eq!(get_screenshot_dir(None, None, None), "/Users/Shared");
    assert_eq!(get_screenshot_dir(None, printed(false, ""), None), "/Users/Shared");
}
