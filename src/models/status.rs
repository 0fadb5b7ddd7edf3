//! Health and alert-severity levels, with their display colours and symbols.
use vstd::prelude::*;

verus! {

/// Health of an endpoint, from its short-window metrics.
#[derive(Debug, Clone, Copy, PartialEq, Eq, Structural)]
pub enum HealthStatus {
    /// Too few samples to judge
    Unknown,
    /// Optimal performance
    Excellent,
    /// Acceptable performance
    Good,
    /// Some performance issues
    Fair,
    /// Significant performance issues
    Poor,
    /// Severe performance issues
    Critical,
}

pub open spec fn health_color(h: HealthStatus) -> Seq<char> {
    match h {
        HealthStatus::Unknown => "gray"@,
        HealthStatus::Excellent => "green"@,
        HealthStatus::Good => "lightgreen"@,
        HealthStatus::Fair => "yellow"@,
        HealthStatus::Poor => "orange"@,
        HealthStatus::Critical => "red"@,
    }
}

pub open spec fn health_emoji(h: HealthStatus) -> Seq<char> {
    match h {
        HealthStatus::Unknown => "\u{2753}"@,
        HealthStatus::Excellent => "\u{1f7e2}"@,
        HealthStatus::Good => "\u{1f7e1}"@,
        HealthStatus::Fair => "\u{1f7e0}"@,
        HealthStatus::Poor => "\u{1f534}"@,
        HealthStatus::Critical => "\u{1f480}"@,
    }
}

impl HealthStatus {
    /// Colour name for display.
    pub fn color(self) -> (r: &'static str)
        ensures
            r@ == health_color(self),
    {
        match self {
            HealthStatus::Unknown => "gray",
            HealthStatus::Excellent => "green",
            HealthStatus::Good => "lightgreen",
            HealthStatus::Fair => "yellow",
            HealthStatus::Poor => "orange",
            HealthStatus::Critical => "red",
        }
    }

    /// Symbol for display.
    pub fn emoji(self) -> (r: &'static str)
        ensures
            r@ == health_emoji(self),
    {
        match self {
            HealthStatus::Unknown => "\u{2753}",
            HealthStatus::Excellent => "\u{1f7e2}",
            HealthStatus::Good => "\u{1f7e1}",
            HealthStatus::Fair => "\u{1f7e0}",
            HealthStatus::Poor => "\u{1f534}",
            HealthStatus::Critical => "\u{1f480}",
        }
    }
}

/// Alert severity levels, in increasing order of urgency.
#[derive(Debug, Clone, Copy, PartialEq, Eq, Structural, PartialOrd, Ord, Hash)]
pub enum AlertSeverity {
    /// Informational
    Info,
    /// Requires attention
    Warning,
    /// Requires immediate action
    Critical,
}

pub open spec fn severity_color(s: AlertSeverity) -> Seq<char> {
    match s {
        AlertSeverity::Info => "blue"@,
        AlertSeverity::Warning => "yellow"@,
        AlertSeverity::Critical => "red"@,
    }
}

pub open spec fn severity_emoji(s: AlertSeverity) -> Seq<char> {
    match s {
        AlertSeverity::Info => "\u{2139}\u{fe0f}"@,
        AlertSeverity::Warning => "\u{26a0}\u{fe0f}"@,
        AlertSeverity::Critical => "\u{1f6a8}"@,
    }
}

impl AlertSeverity {
    /// Colour name for display.
    pub fn color_code(&self) -> (r: &'static str)
        ensures
            r@ == severity_color(*self),
    {
        match self {
            AlertSeverity::Info => "blue",
            AlertSeverity::Warning => "yellow",
            AlertSeverity::Critical => "red",
        }
    }

    /// Symbol for display.
    pub fn emoji(&self) -> (r: &'static str)
        ensures
            r@ == severity_emoji(*self),
    {
        match self {
            AlertSeverity::Info => "\u{2139}\u{fe0f}",
            AlertSeverity::Warning => "\u{26a0}\u{fe0f}",
            AlertSeverity::Critical => "\u{1f6a8}",
        }
    }
}

/// The display category of a letter grade.
pub open spec fn grade_category(grade: char) -> Seq<char> {
    if grade == 'A' {
        "Excellent"@
    } else if grade == 'B' {
        "Good"@
    } else if grade == 'C' {
        "Fair"@
    } else if grade == 'D' {
        "Poor"@
    } else if grade == 'F' {
        "Bad"@
    } else {
        "Unknown"@
    }
}

/// The quality label and advice for an overall score out of 100; scores
/// over 100 are treated as the lowest band.
pub open spec fn spec_quality(score: u8) -> (Seq<char>, Seq<char>) {
    if 90 <= score && score <= 100 {
        ("Excellent"@, "Your network connection is performing exceptionally well."@)
    } else if 75 <= score && score <= 89 {
        ("Good"@, "Your network connection is solid."@)
    } else if 60 <= score && score <= 74 {
        ("Fair"@, "Your network connection is acceptable, but could be improved."@)
    } else if 40 <= score && score <= 59 {
        ("Poor"@, "You may experience some issues with your network connection."@)
    } else {
        ("Very Poor"@, "Your network connection is performing poorly."@)
    }
}

/// Grade-to-category lookup for result tables.
pub struct DisplayFormatter;

impl DisplayFormatter {
    pub fn get_category(grade: char) -> (r: &'static str)
        ensures
            r@ == grade_category(grade),
    {
        match grade {
            'A' => "Excellent",
            'B' => "Good",
            'C' => "Fair",
            'D' => "Poor",
            'F' => "Bad",
            _ => "Unknown",
        }
    }

    /// The quality label and advice shown for an overall score.
    pub fn quality_assessment(score: u8) -> (r: (&'static str, &'static str))
        ensures
            (r.0@, r.1@) == spec_quality(score),
    {
        if 90 <= score && score <= 100 {
            ("Excellent", "Your network connection is performing exceptionally well.")
        } else if 75 <= score && score <= 89 {
            ("Good", "Your network connection is solid.")
        } else if 60 <= score && score <= 74 {
            ("Fair", "Your network connection is acceptable, but could be improved.")
        } else if 40 <= score && score <= 59 {
            ("Poor", "You may experience some issues with your network connection.")
        } else {
            ("Very Poor", "Your network connection is performing poorly.")
        }
    }
}

} // verus!
