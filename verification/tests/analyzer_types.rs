use mga::analyzers::AnalyzerRegistry;
use mga::types::{HealthAnalysis, Issue, IssueCategory, IssueSeverity, Recommendation};

#[test]
fn test_analyzer_registry_creation() {
    let registry = AnalyzerRegistry::new();
    // Registry should have analyzers registered
    assert!(registry.analyzers.len() > 0);
}

#[test]
fn test_health_analysis_severity_counting() {
    let mut analysis = HealthAnalysis::new(80, "Test analysis");

    analysis.add_issue(Issue::new(
        IssueSeverity::Warning,
        IssueCategory::Performance,
        "Test Warning",
        "This is a test warning",
    ));

    analysis.add_issue(Issue::new(
        IssueSeverity::Error,
        IssueCategory::Availability,
        "Test Error",
        "This is a test error",
    ));

    assert_eq!(analysis.count_by_severity(IssueSeverity::Warning), 1);
    assert_eq!(analysis.count_by_severity(IssueSeverity::Error), 1);
    assert_eq!(analysis.count_by_severity(IssueSeverity::Critical), 0);

    assert_eq!(analysis.max_severity(), Some(IssueSeverity::Error));
    assert!(!analysis.is_healthy());
}

#[test]
fn test_issue_builder() {
    let issue = Issue::new(
        IssueSeverity::Warning,
        IssueCategory::Configuration,
        "Test Issue",
        "Test Description",
    )
    .with_component("test-component")
    .with_detected_at("2024-01-01T00:00:00Z");

    assert_eq!(issue.severity, IssueSeverity::Warning);
    assert_eq!(issue.category, IssueCategory::Configuration);
    assert_eq!(issue.title, "Test Issue");
    assert_eq!(issue.affected_component, Some("test-component".to_string()));
    assert_eq!(issue.detected_at, Some("2024-01-01T00:00:00Z".to_string()));
}

#[test]
fn test_recommendation_builder() {
    let rec = Recommendation::new("Fix the issue", "Run this command to fix")
        .with_action("oc fix --all")
        .with_docs("https://docs.example.com");

    assert_eq!(rec.title, "Fix the issue");
    assert_eq!(rec.action, Some("oc fix --all".to_string()));
    assert_eq!(
        rec.documentation_url,
        Some("https://docs.example.com".to_string())
    );
}

#[test]
fn new_analysis_clamps_score_to_one_hundred() {
    let analysis = HealthAnalysis::new(250, "clamped");
    assert_eq!(analysis.health_score, 100);
    assert!(analysis.is_healthy());
    assert_eq!(analysis.max_severity(), None);
    let default = HealthAnalysis::default();
    assert_eq!(default.health_score, 100);
    assert_eq!(default.summary, "No analysis performed");
}
