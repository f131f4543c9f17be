//! The exact CLI invocations the Tailwind helper assembles.

use gitscribe::tailwind::TailwindCli;

#[test]
fn build_arguments_are_exact() {
    let cli = TailwindCli::new("/opt/bin/tailwindcss".to_string());
    let args = cli.build("styles/input.css", "styles/output.css", "tailwind.config.json");
    assert_eq!(
        args,
        vec![
            "-i",
            "styles/input.css",
            "-o",
            "styles/output.css",
            "--minify",
            "-c",
            "tailwind.config.json",
        ]
    );
}

#[test]
fn watch_arguments_are_exact() {
    let cli = TailwindCli::new("/opt/bin/tailwindcss".to_string());
    let args = cli.watch("in.css", "out.css", "conf.json");
    assert_eq!(args, vec!["-i", "in.css", "-o", "out.css", "--watch", "-c", "conf.json"]);
}

#[test]
fn the_handle_keeps_its_binary_path() {
    let cli = TailwindCli::new("/somewhere/tailwindcss".to_string());
    assert_eq!(cli.binary_path_str(), "/somewhere/tailwindcss");
}
