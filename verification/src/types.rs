//! Issues, recommendations and the health analysis that collects them.
use vstd::prelude::*;

verus! {

/// Severity level of an issue, from least to most severe.
#[derive(Debug, Clone, Copy, PartialEq, Eq, PartialOrd, Ord, Structural)]
pub enum IssueSeverity {
    /// Informational message
    Info,
    /// Warning that should be investigated
    Warning,
    /// Error that needs attention
    Error,
    /// Critical issue requiring immediate action
    Critical,
}

/// Position of a severity in the order Info < Warning < Error < Critical.
pub open spec fn severity_rank(s: IssueSeverity) -> int {
    match s {
        IssueSeverity::Info => 0,
        IssueSeverity::Warning => 1,
        IssueSeverity::Error => 2,
        IssueSeverity::Critical => 3,
    }
}

/// Error and Critical issues make a resource unhealthy.
pub open spec fn is_blocking(s: IssueSeverity) -> bool {
    s == IssueSeverity::Error || s == IssueSeverity::Critical
}

/// Rank of a severity, as computed at run time.
pub fn severity_level(s: IssueSeverity) -> (r: u8)
    ensures
        r == severity_rank(s),
{
    match s {
        IssueSeverity::Info => 0,
        IssueSeverity::Warning => 1,
        IssueSeverity::Error => 2,
        IssueSeverity::Critical => 3,
    }
}

/// Category of issue
#[derive(Debug, Clone, Copy, PartialEq, Eq, Structural)]
pub enum IssueCategory {
    /// Resource availability issues
    Availability,
    /// Performance degradation
    Performance,
    /// Configuration problems
    Configuration,
    /// Capacity or resource limits
    Capacity,
    /// Security concerns
    Security,
    /// Networking issues
    Network,
    /// Storage problems
    Storage,
    /// General health check
    Health,
}

/// An identified issue with a resource
#[derive(Debug, Clone)]
pub struct Issue {
    /// Severity of the issue
    pub severity: IssueSeverity,
    /// Category of the issue
    pub category: IssueCategory,
    /// Human-readable title
    pub title: String,
    /// Detailed description
    pub description: String,
    /// Affected component or field
    pub affected_component: Option<String>,
    /// When the issue was detected (if available)
    pub detected_at: Option<String>,
}

/// An issue with its texts as character sequences.
pub struct IssueView {
    pub severity: IssueSeverity,
    pub category: IssueCategory,
    pub title: Seq<char>,
    pub description: Seq<char>,
    pub affected_component: Option<Seq<char>>,
    pub detected_at: Option<Seq<char>>,
}

impl View for Issue {
    type V = IssueView;

    open spec fn view(&self) -> IssueView {
        IssueView {
            severity: self.severity,
            category: self.category,
            title: self.title@,
            description: self.description@,
            affected_component: self.affected_component.deep_view(),
            detected_at: self.detected_at.deep_view(),
        }
    }
}

impl DeepView for Issue {
    type V = IssueView;

    open spec fn deep_view(&self) -> IssueView {
        self@
    }
}

/// A freshly created issue: no component, no detection time.
pub open spec fn new_issue(
    severity: IssueSeverity,
    category: IssueCategory,
    title: Seq<char>,
    description: Seq<char>,
) -> IssueView {
    IssueView {
        severity,
        category,
        title,
        description,
        affected_component: None,
        detected_at: None,
    }
}

impl IssueView {
    pub open spec fn with_component(self, component: Seq<char>) -> IssueView {
        IssueView { affected_component: Some(component), ..self }
    }

    pub open spec fn with_detected_at(self, time: Seq<char>) -> IssueView {
        IssueView { detected_at: Some(time), ..self }
    }
}

impl Issue {
    /// Create a new issue
    pub fn new(severity: IssueSeverity, category: IssueCategory, title: &str, description: &str) -> (r:
        Issue)
        ensures
            r@ == new_issue(severity, category, title@, description@),
    {
        Issue {
            severity,
            category,
            title: String::from_str(title),
            description: String::from_str(description),
            affected_component: None,
            detected_at: None,
        }
    }

    /// Set the affected component
    pub fn with_component(self, component: &str) -> (r: Issue)
        ensures
            r@ == self@.with_component(component@),
    {
        let mut issue = self;
        issue.affected_component = Some(String::from_str(component));
        issue
    }

    /// Set the detection time
    pub fn with_detected_at(self, time: &str) -> (r: Issue)
        ensures
            r@ == self@.with_detected_at(time@),
    {
        let mut issue = self;
        issue.detected_at = Some(String::from_str(time));
        issue
    }
}

/// A recommendation for fixing an issue
#[derive(Debug, Clone)]
pub struct Recommendation {
    /// Short title of the recommendation
    pub title: String,
    /// Detailed description
    pub description: String,
    /// Command or action to take
    pub action: Option<String>,
    /// Link to documentation
    pub documentation_url: Option<String>,
}

/// A recommendation with its texts as character sequences.
pub struct RecommendationView {
    pub title: Seq<char>,
    pub description: Seq<char>,
    pub action: Option<Seq<char>>,
    pub documentation_url: Option<Seq<char>>,
}

impl View for Recommendation {
    type V = RecommendationView;

    open spec fn view(&self) -> RecommendationView {
        RecommendationView {
            title: self.title@,
            description: self.description@,
            action: self.action.deep_view(),
            documentation_url: self.documentation_url.deep_view(),
        }
    }
}

impl DeepView for Recommendation {
    type V = RecommendationView;

    open spec fn deep_view(&self) -> RecommendationView {
        self@
    }
}

/// A freshly created recommendation: no action, no documentation link.
pub open spec fn new_recommendation(title: Seq<char>, description: Seq<char>) -> RecommendationView {
    RecommendationView { title, description, action: None, documentation_url: None }
}

impl RecommendationView {
    pub open spec fn with_action(self, action: Seq<char>) -> RecommendationView {
        RecommendationView { action: Some(action), ..self }
    }

    pub open spec fn with_docs(self, url: Seq<char>) -> RecommendationView {
        RecommendationView { documentation_url: Some(url), ..self }
    }
}

impl Recommendation {
    /// Create a new recommendation
    pub fn new(title: &str, description: &str) -> (r: Recommendation)
        ensures
            r@ == new_recommendation(title@, description@),
    {
        Recommendation {
            title: String::from_str(title),
            description: String::from_str(description),
            action: None,
            documentation_url: None,
        }
    }

    /// Set the action command
    pub fn with_action(self, action: &str) -> (r: Recommendation)
        ensures
            r@ == self@.with_action(action@),
    {
        let mut rec = self;
        rec.action = Some(String::from_str(action));
        rec
    }

    /// Set the documentation URL
    pub fn with_docs(self, url: &str) -> (r: Recommendation)
        ensures
            r@ == self@.with_docs(url@),
    {
        let mut rec = self;
        rec.documentation_url = Some(String::from_str(url));
        rec
    }
}

/// Complete health analysis of a resource
#[derive(Debug, Clone)]
pub struct HealthAnalysis {
    /// Overall health score (0-100)
    pub health_score: u8,
    /// List of identified issues
    pub issues: Vec<Issue>,
    /// List of recommendations
    pub recommendations: Vec<Recommendation>,
    /// Summary of the analysis
    pub summary: String,
}

/// A health analysis with its parts as sequences.
pub struct HealthAnalysisView {
    pub health_score: u8,
    pub issues: Seq<IssueView>,
    pub recommendations: Seq<RecommendationView>,
    pub summary: Seq<char>,
}

impl View for HealthAnalysis {
    type V = HealthAnalysisView;

    open spec fn view(&self) -> HealthAnalysisView {
        HealthAnalysisView {
            health_score: self.health_score,
            issues: self.issues.deep_view(),
            recommendations: self.recommendations.deep_view(),
            summary: self.summary@,
        }
    }
}

impl DeepView for HealthAnalysis {
    type V = HealthAnalysisView;

    open spec fn deep_view(&self) -> HealthAnalysisView {
        self@
    }
}

/// The score kept by a new analysis: at most 100.
pub open spec fn clamp_score(score: u8) -> u8 {
    if score > 100 {
        100
    } else {
        score
    }
}

/// A new analysis with no issues and no recommendations.
pub open spec fn new_analysis(score: u8, summary: Seq<char>) -> HealthAnalysisView {
    HealthAnalysisView {
        health_score: clamp_score(score),
        issues: Seq::empty(),
        recommendations: Seq::empty(),
        summary,
    }
}

/// Some issue of the list is an Error or Critical one.
pub open spec fn has_blocking_issue(issues: Seq<IssueView>) -> bool {
    exists|i: int| 0 <= i < issues.len() && is_blocking(#[trigger] issues[i].severity)
}

/// The most severe severity among the issues; `None` without issues.
pub open spec fn max_severity_of(issues: Seq<IssueView>) -> Option<IssueSeverity>
    decreases issues.len(),
{
    if issues.len() == 0 {
        None
    } else {
        let last = issues.last().severity;
        match max_severity_of(issues.drop_last()) {
            None => Some(last),
            Some(m) => if severity_rank(last) >= severity_rank(m) {
                Some(last)
            } else {
                Some(m)
            },
        }
    }
}

/// Number of issues with the given severity.
pub open spec fn count_severity(issues: Seq<IssueView>, severity: IssueSeverity) -> nat
    decreases issues.len(),
{
    if issues.len() == 0 {
        0
    } else {
        count_severity(issues.drop_last(), severity) + if issues.last().severity == severity {
            1nat
        } else {
            0nat
        }
    }
}

impl HealthAnalysisView {
    pub open spec fn add_issue(self, issue: IssueView) -> HealthAnalysisView {
        HealthAnalysisView { issues: self.issues.push(issue), ..self }
    }

    pub open spec fn add_recommendation(self, rec: RecommendationView) -> HealthAnalysisView {
        HealthAnalysisView { recommendations: self.recommendations.push(rec), ..self }
    }
}

impl HealthAnalysis {
    /// Create a new health analysis
    pub fn new(health_score: u8, summary: &str) -> (r: HealthAnalysis)
        ensures
            r@ == new_analysis(health_score, summary@),
    {
        let r = HealthAnalysis {
            health_score: if health_score > 100 {
                100
            } else {
                health_score
            },
            issues: Vec::new(),
            recommendations: Vec::new(),
            summary: String::from_str(summary),
        };
        assert(r.issues.deep_view() =~= Seq::<IssueView>::empty());
        assert(r.recommendations.deep_view() =~= Seq::<RecommendationView>::empty());
        r
    }

    /// Add an issue to the analysis
    pub fn add_issue(&mut self, issue: Issue)
        ensures
            final(self)@ == old(self)@.add_issue(issue@),
    {
        self.issues.push(issue);
        assert(self.issues.deep_view() =~= old(self).issues.deep_view().push(issue@));
    }

    /// Add a recommendation to the analysis
    pub fn add_recommendation(&mut self, recommendation: Recommendation)
        ensures
            final(self)@ == old(self)@.add_recommendation(recommendation@),
    {
        self.recommendations.push(recommendation);
        assert(self.recommendations.deep_view() =~= old(
            self,
        ).recommendations.deep_view().push(recommendation@));
    }

    /// Check if the resource is healthy (no errors or critical issues)
    pub fn is_healthy(&self) -> (r: bool)
        ensures
            r == !has_blocking_issue(self@.issues),
    {
        let mut i: usize = 0;
        while i < self.issues.len()
            invariant
                i <= self.issues.len(),
                forall|k: int| 0 <= k < i ==> !is_blocking(#[trigger] self@.issues[k].severity),
            decreases self.issues.len() - i,
        {
            let s = self.issues[i].severity;
            if s == IssueSeverity::Error || s == IssueSeverity::Critical {
                assert(self@.issues[i as int].severity == s);
                return false;
            }
            i = i + 1;
        }
        true
    }

    /// Get the highest severity issue
    pub fn max_severity(&self) -> (r: Option<IssueSeverity>)
        ensures
            r == max_severity_of(self@.issues),
    {
        let mut best: Option<IssueSeverity> = None;
        let mut i: usize = 0;
        while i < self.issues.len()
            invariant
                i <= self.issues.len(),
                best == max_severity_of(self@.issues.take(i as int)),
            decreases self.issues.len() - i,
        {
            let s = self.issues[i].severity;
            assert(self@.issues.take(i + 1).drop_last() =~= self@.issues.take(i as int));
            best = match best {
                None => Some(s),
                Some(m) => if severity_level(s) >= severity_level(m) {
                    Some(s)
                } else {
                    Some(m)
                },
            };
            i = i + 1;
        }
        assert(self@.issues.take(i as int) =~= self@.issues);
        best
    }

    /// Count issues by severity
    pub fn count_by_severity(&self, severity: IssueSeverity) -> (r: usize)
        ensures
            r == count_severity(self@.issues, severity),
    {
        let mut n: usize = 0;
        let mut i: usize = 0;
        while i < self.issues.len()
            invariant
                i <= self.issues.len(),
                n == count_severity(self@.issues.take(i as int), severity),
                n <= i,
            decreases self.issues.len() - i,
        {
            assert(self@.issues.take(i + 1).drop_last() =~= self@.issues.take(i as int));
            if self.issues[i].severity == severity {
                n = n + 1;
            }
            i = i + 1;
        }
        assert(self@.issues.take(i as int) =~= self@.issues);
        n
    }
}

impl Default for HealthAnalysis {
    fn default() -> (r: HealthAnalysis)
        ensures
            r@ == new_analysis(100, "No analysis performed"@),
    {
        HealthAnalysis::new(100, "No analysis performed")
    }
}

fn copy_text(s: &String) -> (r: String)
    ensures
        r@ == s@,
{
    String::from_str(s.as_str())
}

fn copy_opt_text(s: &Option<String>) -> (r: Option<String>)
    ensures
        r.deep_view() == s.deep_view(),
{
    match s {
        Some(v) => Some(copy_text(v)),
        None => None,
    }
}

impl Issue {
    /// A copy of the issue.
    pub fn copy(&self) -> (r: Issue)
        ensures
            r@ == self@,
    {
        Issue {
            severity: self.severity,
            category: self.category,
            title: copy_text(&self.title),
            description: copy_text(&self.description),
            affected_component: copy_opt_text(&self.affected_component),
            detected_at: copy_opt_text(&self.detected_at),
        }
    }
}

impl Recommendation {
    /// A copy of the recommendation.
    pub fn copy(&self) -> (r: Recommendation)
        ensures
            r@ == self@,
    {
        Recommendation {
            title: copy_text(&self.title),
            description: copy_text(&self.description),
            action: copy_opt_text(&self.action),
            documentation_url: copy_opt_text(&self.documentation_url),
        }
    }
}

impl HealthAnalysis {
    /// A copy of the analysis.
    pub fn copy(&self) -> (r: HealthAnalysis)
        ensures
            r@ == self@,
    {
        let mut issues: Vec<Issue> = Vec::new();
        let mut i: usize = 0;
        while i < self.issues.len()
            invariant
                i <= self.issues.len(),
                issues.deep_view() =~= self.issues.deep_view().take(i as int),
            decreases self.issues.len() - i,
        {
            let c = self.issues[i].copy();
            let ghost before = issues.deep_view();
            let ghost cv = c@;
            issues.push(c);
            assert(issues.deep_view() =~= before.push(cv));
            i = i + 1;
        }
        assert(self.issues.deep_view().take(self.issues.len() as int) =~= self.issues.deep_view());
        let mut recommendations: Vec<Recommendation> = Vec::new();
        let mut j: usize = 0;
        while j < self.recommendations.len()
            invariant
                j <= self.recommendations.len(),
                recommendations.deep_view() =~= self.recommendations.deep_view().take(j as int),
            decreases self.recommendations.len() - j,
        {
            let c = self.recommendations[j].copy();
            let ghost before = recommendations.deep_view();
            let ghost cv = c@;
            recommendations.push(c);
            assert(recommendations.deep_view() =~= before.push(cv));
            j = j + 1;
        }
        assert(self.recommendations.deep_view().take(self.recommendations.len() as int)
            =~= self.recommendations.deep_view());
        HealthAnalysis {
            health_score: self.health_score,
            issues,
            recommendations,
            summary: copy_text(&self.summary),
        }
    }
}

} // verus!
