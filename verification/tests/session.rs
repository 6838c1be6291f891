use diffscribe::backend::AnalysisBackend;
use diffscribe::errors::GenerationError;
use diffscribe::session::Config;

/// A backend that tags every answer with its own name, so tests can tell
/// which backend a session call reached.
struct NamedBackend {
    name: &'static str,
}

impl AnalysisBackend for NamedBackend {
    fn generate_commit_message(&self, diff: &str) -> Result<String, GenerationError> {
        Ok(format!("{}:commit:{}", self.name, diff))
    }

    fn analyze_file_changes(&self, diff: &str) -> Result<String, GenerationError> {
        Ok(format!("{}:file:{}", self.name, diff))
    }

    fn analyze_contributor(&self, stats: &str) -> Result<String, GenerationError> {
        Ok(format!("{}:contributor:{}", self.name, stats))
    }
}

#[test]
fn new_keeps_given_path() {
    let config = Config::new(NamedBackend { name: "alpha" }, Some("/tmp/repo".to_string()));
    assert_eq!(config.repo_path(), "/tmp/repo");
}

#[test]
fn new_defaults_to_current_directory() {
    let config = Config::new(NamedBackend { name: "alpha" }, None);
    assert_eq!(config.repo_path(), ".");
}

#[test]
fn with_new_model_keeps_repo_path() {
    let old_path;
    let config = Config::new(NamedBackend { name: "alpha" }, Some("here".to_string()));
    old_path = config.repo_path().to_string();
    let swapped = config.with_new_model(NamedBackend { name: "beta" });
    assert_eq!(swapped.repo_path(), old_path);
    assert_eq!(swapped.model().name, "beta");
}

#[test]
fn with_new_repo_keeps_model() {
    let config = Config::new(7u8, Some("old".to_string()));
    let swapped = config.with_new_repo("new".to_string());
    assert_eq!(*swapped.model(), 7u8);
    assert_eq!(swapped.repo_path(), "new");
}

#[test]
fn replacement_composes_without_touching_the_other_field() {
    let config = Config::new(NamedBackend { name: "alpha" }, Some("one".to_string()));
    let config = config.with_new_repo("two".to_string());
    assert_eq!(config.model().name, "alpha");
    let config = config.with_new_model(NamedBackend { name: "gamma" });
    assert_eq!(config.repo_path(), "two");
    assert_eq!(config.model().name, "gamma");
}

#[test]
fn commit_message_delegates_to_active_backend() {
    let config = Config::new(NamedBackend { name: "alpha" }, None);
    assert_eq!(config.generate_commit_message("+x").unwrap(), "alpha:commit:+x");
    let config = config.with_new_model(NamedBackend { name: "beta" });
    assert_eq!(config.generate_commit_message("+x").unwrap(), "beta:commit:+x");
}

#[test]
fn contributor_summary_delegates_to_active_backend() {
    let config = Config::new(NamedBackend { name: "alpha" }, None);
    assert_eq!(config.analyze_contributor("5 commits").unwrap(), "alpha:contributor:5 commits");
}
