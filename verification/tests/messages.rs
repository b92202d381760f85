use ogl_bootstrap::options::ConfigError;
use ogl_bootstrap::program::Error;
use ogl_bootstrap::resources;

#[test]
fn configuration_rejections_say_why() {
    assert_eq!(ConfigError::TitleNotText.message(), "Expected string literal for title");
    assert_eq!(ConfigError::WindowNotText.message(), "Expected string for window options");
    assert_eq!(ConfigError::WindowFormat.message(), "Expected format: WIDTHxHEIGHT");
    assert_eq!(
        ConfigError::ColorNotText.message(),
        "Expected string for background_color options"
    );
    assert_eq!(ConfigError::ColorFormat.message(), "Expected format: R G B A");
    assert_eq!(
        ConfigError::UnknownAttribute { name: "colour".to_string() }.message(),
        "Unknown attribute: colour"
    );
    assert_eq!(ConfigError::NotUnderstood.message(), "Could not understand attribute");
}

#[test]
fn resource_failures_say_why() {
    assert_eq!(resources::Error::Io("denied".to_string()).message(), "I/O Error");
    assert_eq!(resources::Error::FileContainsNil.message(), "File contains null character");
    assert_eq!(resources::Error::FailToGetPath.message(), "Failed to find executable path");
}

#[test]
fn build_failures_name_what_failed() {
    let e = Error::ResourceLoad {
        name: "triangle.frag".to_string(),
        inner: resources::Error::FileContainsNil,
    };
    assert_eq!(e.message(), "Failed to load resource: triangle.frag");
    let e = Error::UndefinedShaderType { name: "triangle.txt".to_string() };
    assert_eq!(e.message(), "Cannot find shader type for triangle.txt");
    let e = Error::CompileError { name: "vs".to_string(), message: "bad token".to_string() };
    assert_eq!(e.message(), "Failed to compile shader vs: bad token");
    let e = Error::LinkError { name: "triangle".to_string(), message: "unresolved".to_string() };
    assert_eq!(e.message(), "Failed to link program triangle: unresolved");
}
