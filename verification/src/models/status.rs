//! The enumerations of the state models and the codes that the database
//! stores for them.
//!
//! A status is written as the snake-case name of its variant (`pending`,
//! `in_progress`, `short_term`, ...), the same table of codes it is read
//! back by; an unknown code reads as the default. Every value reads back
//! from the code written for it.
use crate::json::text_eq;
use vstd::prelude::*;

verus! {

/// Session status.
#[derive(Clone, Copy, Debug, PartialEq, Eq, Structural)]
pub enum SessionStatus {
    Active,
    Paused,
    Completed,
    Failed,
    Abandoned,
}

/// Goal status.
#[derive(Clone, Copy, Debug, PartialEq, Eq, Structural)]
pub enum GoalStatus {
    Pending,
    InProgress,
    Completed,
    Failed,
    Cancelled,
}

/// Goal priority levels.
#[derive(Clone, Copy, Debug, PartialEq, Eq, Structural)]
pub enum GoalPriority {
    Low,
    Medium,
    High,
    Critical,
}

/// Tool execution status.
#[derive(Clone, Copy, Debug, PartialEq, Eq, Structural)]
pub enum ToolStatus {
    Pending,
    Running,
    Completed,
    Failed,
    Cancelled,
}

/// Memory type: short-term (working) or long-term (persistent).
#[derive(Clone, Copy, Debug, PartialEq, Eq, Structural)]
pub enum MemoryType {
    ShortTerm,
    LongTerm,
}

/// Memory importance level for retention decisions.
#[derive(Clone, Copy, Debug, PartialEq, Eq, Structural)]
pub enum MemoryImportance {
    Low,
    Medium,
    High,
    Critical,
}

/// Channel type.
#[derive(Clone, Copy, Debug, PartialEq, Eq, Structural)]
pub enum ChannelType {
    Chat,
    Email,
    Calendar,
    Voice,
    Webhook,
    Custom,
}

/// Channel status.
#[derive(Clone, Copy, Debug, PartialEq, Eq, Structural)]
pub enum ChannelStatus {
    Active,
    Paused,
    Inactive,
}

impl Default for SessionStatus {
    fn default() -> (r: Self)
        ensures
            r == SessionStatus::Active,
    {
        SessionStatus::Active
    }
}

impl Default for GoalStatus {
    fn default() -> (r: Self)
        ensures
            r == GoalStatus::Pending,
    {
        GoalStatus::Pending
    }
}

impl Default for GoalPriority {
    fn default() -> (r: Self)
        ensures
            r == GoalPriority::Medium,
    {
        GoalPriority::Medium
    }
}

impl Default for ToolStatus {
    fn default() -> (r: Self)
        ensures
            r == ToolStatus::Pending,
    {
        ToolStatus::Pending
    }
}

impl Default for MemoryType {
    fn default() -> (r: Self)
        ensures
            r == MemoryType::ShortTerm,
    {
        MemoryType::ShortTerm
    }
}

impl Default for MemoryImportance {
    fn default() -> (r: Self)
        ensures
            r == MemoryImportance::Medium,
    {
        MemoryImportance::Medium
    }
}

impl Default for ChannelType {
    fn default() -> (r: Self)
        ensures
            r == ChannelType::Chat,
    {
        ChannelType::Chat
    }
}

impl Default for ChannelStatus {
    fn default() -> (r: Self)
        ensures
            r == ChannelStatus::Active,
    {
        ChannelStatus::Active
    }
}

impl SessionStatus {
    /// The code written for the status.
    pub open spec fn code_spec(self) -> Seq<char> {
        match self {
            SessionStatus::Active => "active"@,
            SessionStatus::Paused => "paused"@,
            SessionStatus::Completed => "completed"@,
            SessionStatus::Failed => "failed"@,
            SessionStatus::Abandoned => "abandoned"@,
        }
    }

    /// The status read from a code; unknown codes read as `Active`.
    pub open spec fn from_code_spec(s: Seq<char>) -> SessionStatus {
        if s == "active"@ {
            SessionStatus::Active
        } else if s == "paused"@ {
            SessionStatus::Paused
        } else if s == "completed"@ {
            SessionStatus::Completed
        } else if s == "failed"@ {
            SessionStatus::Failed
        } else if s == "abandoned"@ {
            SessionStatus::Abandoned
        } else {
            SessionStatus::Active
        }
    }

    /// The code written for the status.
    pub fn code(&self) -> (s: &'static str)
        ensures
            s@ == self.code_spec(),
    {
        match self {
            SessionStatus::Active => "active",
            SessionStatus::Paused => "paused",
            SessionStatus::Completed => "completed",
            SessionStatus::Failed => "failed",
            SessionStatus::Abandoned => "abandoned",
        }
    }

    /// The status read from a code.
    pub fn from_code(s: &str) -> (r: SessionStatus)
        ensures
            r == SessionStatus::from_code_spec(s@),
    {
        if text_eq(s, "active") {
            SessionStatus::Active
        } else if text_eq(s, "paused") {
            SessionStatus::Paused
        } else if text_eq(s, "completed") {
            SessionStatus::Completed
        } else if text_eq(s, "failed") {
            SessionStatus::Failed
        } else if text_eq(s, "abandoned") {
            SessionStatus::Abandoned
        } else {
            SessionStatus::Active
        }
    }
}

impl GoalStatus {
    /// The code written for the status.
    pub open spec fn code_spec(self) -> Seq<char> {
        match self {
            GoalStatus::Pending => "pending"@,
            GoalStatus::InProgress => "in_progress"@,
            GoalStatus::Completed => "completed"@,
            GoalStatus::Failed => "failed"@,
            GoalStatus::Cancelled => "cancelled"@,
        }
    }

    /// The status read from a code; unknown codes read as `Pending`.
    pub open spec fn from_code_spec(s: Seq<char>) -> GoalStatus {
        if s == "pending"@ {
            GoalStatus::Pending
        } else if s == "in_progress"@ {
            GoalStatus::InProgress
        } else if s == "completed"@ {
            GoalStatus::Completed
        } else if s == "failed"@ {
            GoalStatus::Failed
        } else if s == "cancelled"@ {
            GoalStatus::Cancelled
        } else {
            GoalStatus::Pending
        }
    }

    /// The code written for the status.
    pub fn code(&self) -> (s: &'static str)
        ensures
            s@ == self.code_spec(),
    {
        match self {
            GoalStatus::Pending => "pending",
            GoalStatus::InProgress => "in_progress",
            GoalStatus::Completed => "completed",
            GoalStatus::Failed => "failed",
            GoalStatus::Cancelled => "cancelled",
        }
    }

    /// The status read from a code.
    pub fn from_code(s: &str) -> (r: GoalStatus)
        ensures
            r == GoalStatus::from_code_spec(s@),
    {
        if text_eq(s, "pending") {
            GoalStatus::Pending
        } else if text_eq(s, "in_progress") {
            GoalStatus::InProgress
        } else if text_eq(s, "completed") {
            GoalStatus::Completed
        } else if text_eq(s, "failed") {
            GoalStatus::Failed
        } else if text_eq(s, "cancelled") {
            GoalStatus::Cancelled
        } else {
            GoalStatus::Pending
        }
    }
}

impl GoalPriority {
    /// The code written for the priority.
    pub open spec fn code_spec(self) -> Seq<char> {
        match self {
            GoalPriority::Low => "low"@,
            GoalPriority::Medium => "medium"@,
            GoalPriority::High => "high"@,
            GoalPriority::Critical => "critical"@,
        }
    }

    /// The priority read from a code; unknown codes read as `Medium`.
    pub open spec fn from_code_spec(s: Seq<char>) -> GoalPriority {
        if s == "low"@ {
            GoalPriority::Low
        } else if s == "medium"@ {
            GoalPriority::Medium
        } else if s == "high"@ {
            GoalPriority::High
        } else if s == "critical"@ {
            GoalPriority::Critical
        } else {
            GoalPriority::Medium
        }
    }

    /// The code written for the priority.
    pub fn code(&self) -> (s: &'static str)
        ensures
            s@ == self.code_spec(),
    {
        match self {
            GoalPriority::Low => "low",
            GoalPriority::Medium => "medium",
            GoalPriority::High => "high",
            GoalPriority::Critical => "critical",
        }
    }

    /// The priority read from a code.
    pub fn from_code(s: &str) -> (r: GoalPriority)
        ensures
            r == GoalPriority::from_code_spec(s@),
    {
        if text_eq(s, "low") {
            GoalPriority::Low
        } else if text_eq(s, "medium") {
            GoalPriority::Medium
        } else if text_eq(s, "high") {
            GoalPriority::High
        } else if text_eq(s, "critical") {
            GoalPriority::Critical
        } else {
            GoalPriority::Medium
        }
    }
}

impl ToolStatus {
    /// The code written for the status.
    pub open spec fn code_spec(self) -> Seq<char> {
        match self {
            ToolStatus::Pending => "pending"@,
            ToolStatus::Running => "running"@,
            ToolStatus::Completed => "completed"@,
            ToolStatus::Failed => "failed"@,
            ToolStatus::Cancelled => "cancelled"@,
        }
    }

    /// The status read from a code; unknown codes read as `Pending`.
    pub open spec fn from_code_spec(s: Seq<char>) -> ToolStatus {
        if s == "pending"@ {
            ToolStatus::Pending
        } else if s == "running"@ {
            ToolStatus::Running
        } else if s == "completed"@ {
            ToolStatus::Completed
        } else if s == "failed"@ {
            ToolStatus::Failed
        } else if s == "cancelled"@ {
            ToolStatus::Cancelled
        } else {
            ToolStatus::Pending
        }
    }

    /// The code written for the status.
    pub fn code(&self) -> (s: &'static str)
        ensures
            s@ == self.code_spec(),
    {
        match self {
            ToolStatus::Pending => "pending",
            ToolStatus::Running => "running",
            ToolStatus::Completed => "completed",
            ToolStatus::Failed => "failed",
            ToolStatus::Cancelled => "cancelled",
        }
    }

    /// The status read from a code.
    pub fn from_code(s: &str) -> (r: ToolStatus)
        ensures
            r == ToolStatus::from_code_spec(s@),
    {
        if text_eq(s, "pending") {
            ToolStatus::Pending
        } else if text_eq(s, "running") {
            ToolStatus::Running
        } else if text_eq(s, "completed") {
            ToolStatus::Completed
        } else if text_eq(s, "failed") {
            ToolStatus::Failed
        } else if text_eq(s, "cancelled") {
            ToolStatus::Cancelled
        } else {
            ToolStatus::Pending
        }
    }
}

impl MemoryType {
    /// The code written for the type.
    pub open spec fn code_spec(self) -> Seq<char> {
        match self {
            MemoryType::ShortTerm => "short_term"@,
            MemoryType::LongTerm => "long_term"@,
        }
    }

    /// The type read from a code; unknown codes read as `ShortTerm`.
    pub open spec fn from_code_spec(s: Seq<char>) -> MemoryType {
        if s == "short_term"@ {
            MemoryType::ShortTerm
        } else if s == "long_term"@ {
            MemoryType::LongTerm
        } else {
            MemoryType::ShortTerm
        }
    }

    /// The code written for the type.
    pub fn code(&self) -> (s: &'static str)
        ensures
            s@ == self.code_spec(),
    {
        match self {
            MemoryType::ShortTerm => "short_term",
            MemoryType::LongTerm => "long_term",
        }
    }

    /// The type read from a code.
    pub fn from_code(s: &str) -> (r: MemoryType)
        ensures
            r == MemoryType::from_code_spec(s@),
    {
        if text_eq(s, "short_term") {
            MemoryType::ShortTerm
        } else if text_eq(s, "long_term") {
            MemoryType::LongTerm
        } else {
            MemoryType::ShortTerm
        }
    }
}

impl MemoryImportance {
    /// The code written for the importance.
    pub open spec fn code_spec(self) -> Seq<char> {
        match self {
            MemoryImportance::Low => "low"@,
            MemoryImportance::Medium => "medium"@,
            MemoryImportance::High => "high"@,
            MemoryImportance::Critical => "critical"@,
        }
    }

    /// The importance read from a code; unknown codes read as `Medium`.
    pub open spec fn from_code_spec(s: Seq<char>) -> MemoryImportance {
        if s == "low"@ {
            MemoryImportance::Low
        } else if s == "medium"@ {
            MemoryImportance::Medium
        } else if s == "high"@ {
            MemoryImportance::High
        } else if s == "critical"@ {
            MemoryImportance::Critical
        } else {
            MemoryImportance::Medium
        }
    }

    /// The code written for the importance.
    pub fn code(&self) -> (s: &'static str)
        ensures
            s@ == self.code_spec(),
    {
        match self {
            MemoryImportance::Low => "low",
            MemoryImportance::Medium => "medium",
            MemoryImportance::High => "high",
            MemoryImportance::Critical => "critical",
        }
    }

    /// The importance read from a code.
    pub fn from_code(s: &str) -> (r: MemoryImportance)
        ensures
            r == MemoryImportance::from_code_spec(s@),
    {
        if text_eq(s, "low") {
            MemoryImportance::Low
        } else if text_eq(s, "medium") {
            MemoryImportance::Medium
        } else if text_eq(s, "high") {
            MemoryImportance::High
        } else if text_eq(s, "critical") {
            MemoryImportance::Critical
        } else {
            MemoryImportance::Medium
        }
    }
}

impl ChannelType {
    /// The code written for the type.
    pub open spec fn code_spec(self) -> Seq<char> {
        match self {
            ChannelType::Chat => "chat"@,
            ChannelType::Email => "email"@,
            ChannelType::Calendar => "calendar"@,
            ChannelType::Voice => "voice"@,
            ChannelType::Webhook => "webhook"@,
            ChannelType::Custom => "custom"@,
        }
    }

    /// The type read from a code; unknown codes read as `Chat`.
    pub open spec fn from_code_spec(s: Seq<char>) -> ChannelType {
        if s == "chat"@ {
            ChannelType::Chat
        } else if s == "email"@ {
            ChannelType::Email
        } else if s == "calendar"@ {
            ChannelType::Calendar
        } else if s == "voice"@ {
            ChannelType::Voice
        } else if s == "webhook"@ {
            ChannelType::Webhook
        } else if s == "custom"@ {
            ChannelType::Custom
        } else {
            ChannelType::Chat
        }
    }

    /// The code written for the type.
    pub fn code(&self) -> (s: &'static str)
        ensures
            s@ == self.code_spec(),
    {
        match self {
            ChannelType::Chat => "chat",
            ChannelType::Email => "email",
            ChannelType::Calendar => "calendar",
            ChannelType::Voice => "voice",
            ChannelType::Webhook => "webhook",
            ChannelType::Custom => "custom",
        }
    }

    /// The type read from a code.
    pub fn from_code(s: &str) -> (r: ChannelType)
        ensures
            r == ChannelType::from_code_spec(s@),
    {
        if text_eq(s, "chat") {
            ChannelType::Chat
        } else if text_eq(s, "email") {
            ChannelType::Email
        } else if text_eq(s, "calendar") {
            ChannelType::Calendar
        } else if text_eq(s, "voice") {
            ChannelType::Voice
        } else if text_eq(s, "webhook") {
            ChannelType::Webhook
        } else if text_eq(s, "custom") {
            ChannelType::Custom
        } else {
            ChannelType::Chat
        }
    }
}

impl ChannelStatus {
    /// The code written for the status.
    pub open spec fn code_spec(self) -> Seq<char> {
        match self {
            ChannelStatus::Active => "active"@,
            ChannelStatus::Paused => "paused"@,
            ChannelStatus::Inactive => "inactive"@,
        }
    }

    /// The status read from a code; unknown codes read as `Active`.
    pub open spec fn from_code_spec(s: Seq<char>) -> ChannelStatus {
        if s == "active"@ {
            ChannelStatus::Active
        } else if s == "paused"@ {
            ChannelStatus::Paused
        } else if s == "inactive"@ {
            ChannelStatus::Inactive
        } else {
            ChannelStatus::Active
        }
    }

    /// The code written for the status.
    pub fn code(&self) -> (s: &'static str)
        ensures
            s@ == self.code_spec(),
    {
        match self {
            ChannelStatus::Active => "active",
            ChannelStatus::Paused => "paused",
            ChannelStatus::Inactive => "inactive",
        }
    }

    /// The status read from a code.
    pub fn from_code(s: &str) -> (r: ChannelStatus)
        ensures
            r == ChannelStatus::from_code_spec(s@),
    {
        if text_eq(s, "active") {
            ChannelStatus::Active
        } else if text_eq(s, "paused") {
            ChannelStatus::Paused
        } else if text_eq(s, "inactive") {
            ChannelStatus::Inactive
        } else {
            ChannelStatus::Active
        }
    }
}

impl SessionStatus {
    /// The name of the variant, as `{:?}` writes it.
    pub open spec fn name_spec(self) -> Seq<char> {
        match self {
            SessionStatus::Active => "Active"@,
            SessionStatus::Paused => "Paused"@,
            SessionStatus::Completed => "Completed"@,
            SessionStatus::Failed => "Failed"@,
            SessionStatus::Abandoned => "Abandoned"@,
        }
    }

    /// The name of the variant, as `{:?}` writes it.
    pub fn name(&self) -> (s: &'static str)
        ensures
            s@ == self.name_spec(),
    {
        match self {
            SessionStatus::Active => "Active",
            SessionStatus::Paused => "Paused",
            SessionStatus::Completed => "Completed",
            SessionStatus::Failed => "Failed",
            SessionStatus::Abandoned => "Abandoned",
        }
    }
}

impl GoalStatus {
    /// The name of the variant, as `{:?}` writes it.
    pub open spec fn name_spec(self) -> Seq<char> {
        match self {
            GoalStatus::Pending => "Pending"@,
            GoalStatus::InProgress => "InProgress"@,
            GoalStatus::Completed => "Completed"@,
            GoalStatus::Failed => "Failed"@,
            GoalStatus::Cancelled => "Cancelled"@,
        }
    }

    /// The name of the variant, as `{:?}` writes it.
    pub fn name(&self) -> (s: &'static str)
        ensures
            s@ == self.name_spec(),
    {
        match self {
            GoalStatus::Pending => "Pending",
            GoalStatus::InProgress => "InProgress",
            GoalStatus::Completed => "Completed",
            GoalStatus::Failed => "Failed",
            GoalStatus::Cancelled => "Cancelled",
        }
    }
}

impl GoalPriority {
    /// The name of the variant, as `{:?}` writes it.
    pub open spec fn name_spec(self) -> Seq<char> {
        match self {
            GoalPriority::Low => "Low"@,
            GoalPriority::Medium => "Medium"@,
            GoalPriority::High => "High"@,
            GoalPriority::Critical => "Critical"@,
        }
    }

    /// The name of the variant, as `{:?}` writes it.
    pub fn name(&self) -> (s: &'static str)
        ensures
            s@ == self.name_spec(),
    {
        match self {
            GoalPriority::Low => "Low",
            GoalPriority::Medium => "Medium",
            GoalPriority::High => "High",
            GoalPriority::Critical => "Critical",
        }
    }
}

impl ToolStatus {
    /// The name of the variant, as `{:?}` writes it.
    pub open spec fn name_spec(self) -> Seq<char> {
        match self {
            ToolStatus::Pending => "Pending"@,
            ToolStatus::Running => "Running"@,
            ToolStatus::Completed => "Completed"@,
            ToolStatus::Failed => "Failed"@,
            ToolStatus::Cancelled => "Cancelled"@,
        }
    }

    /// The name of the variant, as `{:?}` writes it.
    pub fn name(&self) -> (s: &'static str)
        ensures
            s@ == self.name_spec(),
    {
        match self {
            ToolStatus::Pending => "Pending",
            ToolStatus::Running => "Running",
            ToolStatus::Completed => "Completed",
            ToolStatus::Failed => "Failed",
            ToolStatus::Cancelled => "Cancelled",
        }
    }
}

/// Every session status reads back from the code written for it.
pub proof fn session_status_code_round_trip(s: SessionStatus)
    ensures
        SessionStatus::from_code_spec(s.code_spec()) == s,
{
    reveal_strlit("active");
    assert("active"@[0] == 'a' && "active"@[1] == 'c');
    reveal_strlit("paused");
    assert("paused"@[0] == 'p' && "paused"@[1] == 'a');
    reveal_strlit("completed");
    assert("completed"@[0] == 'c' && "completed"@[1] == 'o');
    reveal_strlit("failed");
    assert("failed"@[0] == 'f' && "failed"@[1] == 'a');
    reveal_strlit("abandoned");
    assert("abandoned"@[0] == 'a' && "abandoned"@[1] == 'b');
}

/// Every goal status reads back from the code written for it.
pub proof fn goal_status_code_round_trip(s: GoalStatus)
    ensures
        GoalStatus::from_code_spec(s.code_spec()) == s,
{
    reveal_strlit("pending");
    assert("pending"@[0] == 'p' && "pending"@[1] == 'e');
    reveal_strlit("in_progress");
    assert("in_progress"@[0] == 'i' && "in_progress"@[1] == 'n');
    reveal_strlit("completed");
    assert("completed"@[0] == 'c' && "completed"@[1] == 'o');
    reveal_strlit("failed");
    assert("failed"@[0] == 'f' && "failed"@[1] == 'a');
    reveal_strlit("cancelled");
    assert("cancelled"@[0] == 'c' && "cancelled"@[1] == 'a');
}

/// Every goal priority reads back from the code written for it.
pub proof fn goal_priority_code_round_trip(p: GoalPriority)
    ensures
        GoalPriority::from_code_spec(p.code_spec()) == p,
{
    reveal_strlit("low");
    assert("low"@[0] == 'l' && "low"@[1] == 'o');
    reveal_strlit("medium");
    assert("medium"@[0] == 'm' && "medium"@[1] == 'e');
    reveal_strlit("high");
    assert("high"@[0] == 'h' && "high"@[1] == 'i');
    reveal_strlit("critical");
    assert("critical"@[0] == 'c' && "critical"@[1] == 'r');
}

/// Every tool status reads back from the code written for it.
pub proof fn tool_status_code_round_trip(s: ToolStatus)
    ensures
        ToolStatus::from_code_spec(s.code_spec()) == s,
{
    reveal_strlit("pending");
    assert("pending"@[0] == 'p' && "pending"@[1] == 'e');
    reveal_strlit("running");
    assert("running"@[0] == 'r' && "running"@[1] == 'u');
    reveal_strlit("completed");
    assert("completed"@[0] == 'c' && "completed"@[1] == 'o');
    reveal_strlit("failed");
    assert("failed"@[0] == 'f' && "failed"@[1] == 'a');
    reveal_strlit("cancelled");
    assert("cancelled"@[0] == 'c' && "cancelled"@[1] == 'a');
}

/// Every memory type reads back from the code written for it.
pub proof fn memory_type_code_round_trip(t: MemoryType)
    ensures
        MemoryType::from_code_spec(t.code_spec()) == t,
{
    reveal_strlit("short_term");
    assert("short_term"@[0] == 's' && "short_term"@[1] == 'h');
    reveal_strlit("long_term");
    assert("long_term"@[0] == 'l' && "long_term"@[1] == 'o');
}

/// Every memory importance reads back from the code written for it.
pub proof fn memory_importance_code_round_trip(i: MemoryImportance)
    ensures
        MemoryImportance::from_code_spec(i.code_spec()) == i,
{
    reveal_strlit("low");
    assert("low"@[0] == 'l' && "low"@[1] == 'o');
    reveal_strlit("medium");
    assert("medium"@[0] == 'm' && "medium"@[1] == 'e');
    reveal_strlit("high");
    assert("high"@[0] == 'h' && "high"@[1] == 'i');
    reveal_strlit("critical");
    assert("critical"@[0] == 'c' && "critical"@[1] == 'r');
}

/// Every channel type reads back from the code written for it.
pub proof fn channel_type_code_round_trip(t: ChannelType)
    ensures
        ChannelType::from_code_spec(t.code_spec()) == t,
{
    reveal_strlit("chat");
    assert("chat"@[0] == 'c' && "chat"@[1] == 'h');
    reveal_strlit("email");
    assert("email"@[0] == 'e' && "email"@[1] == 'm');
    reveal_strlit("calendar");
    assert("calendar"@[0] == 'c' && "calendar"@[1] == 'a');
    reveal_strlit("voice");
    assert("voice"@[0] == 'v' && "voice"@[1] == 'o');
    reveal_strlit("webhook");
    assert("webhook"@[0] == 'w' && "webhook"@[1] == 'e');
    reveal_strlit("custom");
    assert("custom"@[0] == 'c' && "custom"@[1] == 'u');
}

/// Every channel status reads back from the code written for it.
pub proof fn channel_status_code_round_trip(s: ChannelStatus)
    ensures
        ChannelStatus::from_code_spec(s.code_spec()) == s,
{
    reveal_strlit("active");
    assert("active"@[0] == 'a' && "active"@[1] == 'c');
    reveal_strlit("paused");
    assert("paused"@[0] == 'p' && "paused"@[1] == 'a');
    reveal_strlit("inactive");
    assert("inactive"@[0] == 'i' && "inactive"@[1] == 'n');
}

/// Whether a character is an ASCII capital letter.
pub open spec fn is_capital(c: char) -> bool {
    'A' <= c && c <= 'Z'
}

/// A character with an ASCII capital turned into its small letter.
pub open spec fn to_small(c: char) -> char {
    if is_capital(c) {
        ((c as int) + 32) as char
    } else {
        c
    }
}

/// The snake-case form of a variant's name: every capital turned small,
/// with an underscore before each capital but the first (`InProgress`
/// becomes `in_progress`).
pub open spec fn snake_case(name: Seq<char>) -> Seq<char>
    decreases name.len(),
{
    if name.len() == 0 {
        Seq::empty()
    } else if name.len() > 1 && is_capital(name.last()) {
        snake_case(name.drop_last()) + seq!['_', to_small(name.last())]
    } else {
        snake_case(name.drop_last()).push(to_small(name.last()))
    }
}

/// The code stored for every goal status is the snake-case form of its
/// name, and the codes the pending-goals listing selects (`pending` and
/// `in_progress`) are exactly those of the pending and in-progress goals.
pub proof fn goal_status_codes_are_snake_case(s: GoalStatus)
    ensures
        s.code_spec() == snake_case(s.name_spec()),
        (s.code_spec() == "pending"@ || s.code_spec() == "in_progress"@) <==> (s == GoalStatus::Pending
            || s == GoalStatus::InProgress),
{
    reveal_strlit("pending");
    reveal_strlit("in_progress");
    match s {
        GoalStatus::Pending => {
            reveal_strlit("Pending");
            reveal_strlit("pending");
            assert("Pending"@ =~= seq!['P', 'e', 'n', 'd', 'i', 'n', 'g']);
            assert("pending"@ =~= seq!['p', 'e', 'n', 'd', 'i', 'n', 'g']);
            assert(snake_case(seq!['P', 'e', 'n', 'd', 'i', 'n', 'g']) =~= seq!['p', 'e', 'n', 'd', 'i', 'n', 'g']) by {
                reveal_with_fuel(snake_case, 8);
            }
        },
        GoalStatus::InProgress => {
            reveal_strlit("InProgress");
            reveal_strlit("in_progress");
            assert("InProgress"@ =~= seq!['I', 'n', 'P', 'r', 'o', 'g', 'r', 'e', 's', 's']);
            assert("in_progress"@ =~= seq!['i', 'n', '_', 'p', 'r', 'o', 'g', 'r', 'e', 's', 's']);
            assert(snake_case(seq!['I', 'n', 'P', 'r', 'o', 'g', 'r', 'e', 's', 's']) =~= seq!['i', 'n', '_', 'p', 'r', 'o', 'g', 'r', 'e', 's', 's']) by {
                reveal_with_fuel(snake_case, 11);
            }
        },
        GoalStatus::Completed => {
            reveal_strlit("Completed");
            reveal_strlit("completed");
            assert("Completed"@ =~= seq!['C', 'o', 'm', 'p', 'l', 'e', 't', 'e', 'd']);
            assert("completed"@ =~= seq!['c', 'o', 'm', 'p', 'l', 'e', 't', 'e', 'd']);
            assert(snake_case(seq!['C', 'o', 'm', 'p', 'l', 'e', 't', 'e', 'd']) =~= seq!['c', 'o', 'm', 'p', 'l', 'e', 't', 'e', 'd']) by {
                reveal_with_fuel(snake_case, 10);
            }
        },
        GoalStatus::Failed => {
            reveal_strlit("Failed");
            reveal_strlit("failed");
            assert("Failed"@ =~= seq!['F', 'a', 'i', 'l', 'e', 'd']);
            assert("failed"@ =~= seq!['f', 'a', 'i', 'l', 'e', 'd']);
            assert(snake_case(seq!['F', 'a', 'i', 'l', 'e', 'd']) =~= seq!['f', 'a', 'i', 'l', 'e', 'd']) by {
                reveal_with_fuel(snake_case, 7);
            }
        },
        GoalStatus::Cancelled => {
            reveal_strlit("Cancelled");
            reveal_strlit("cancelled");
            assert("Cancelled"@ =~= seq!['C', 'a', 'n', 'c', 'e', 'l', 'l', 'e', 'd']);
            assert("cancelled"@ =~= seq!['c', 'a', 'n', 'c', 'e', 'l', 'l', 'e', 'd']);
            assert(snake_case(seq!['C', 'a', 'n', 'c', 'e', 'l', 'l', 'e', 'd']) =~= seq!['c', 'a', 'n', 'c', 'e', 'l', 'l', 'e', 'd']) by {
                reveal_with_fuel(snake_case, 10);
            }
        },
    }
}

/// The code stored for every session status is the snake-case form of its
/// name, and the code the active-session lookup selects (`active`) is
/// exactly that of an active session.
pub proof fn session_status_codes_are_snake_case(s: SessionStatus)
    ensures
        s.code_spec() == snake_case(s.name_spec()),
        s.code_spec() == "active"@ <==> s == SessionStatus::Active,
{
    reveal_strlit("active");
    match s {
        SessionStatus::Active => {
            reveal_strlit("Active");
            reveal_strlit("active");
            assert("Active"@ =~= seq!['A', 'c', 't', 'i', 'v', 'e']);
            assert("active"@ =~= seq!['a', 'c', 't', 'i', 'v', 'e']);
            assert(snake_case(seq!['A', 'c', 't', 'i', 'v', 'e']) =~= seq!['a', 'c', 't', 'i', 'v', 'e']) by {
                reveal_with_fuel(snake_case, 7);
            }
        },
        SessionStatus::Paused => {
            reveal_strlit("Paused");
            reveal_strlit("paused");
            assert("Paused"@ =~= seq!['P', 'a', 'u', 's', 'e', 'd']);
            assert("paused"@ =~= seq!['p', 'a', 'u', 's', 'e', 'd']);
            assert(snake_case(seq!['P', 'a', 'u', 's', 'e', 'd']) =~= seq!['p', 'a', 'u', 's', 'e', 'd']) by {
                reveal_with_fuel(snake_case, 7);
            }
        },
        SessionStatus::Completed => {
            reveal_strlit("Completed");
            reveal_strlit("completed");
            assert("Completed"@ =~= seq!['C', 'o', 'm', 'p', 'l', 'e', 't', 'e', 'd']);
            assert("completed"@ =~= seq!['c', 'o', 'm', 'p', 'l', 'e', 't', 'e', 'd']);
            assert(snake_case(seq!['C', 'o', 'm', 'p', 'l', 'e', 't', 'e', 'd']) =~= seq!['c', 'o', 'm', 'p', 'l', 'e', 't', 'e', 'd']) by {
                reveal_with_fuel(snake_case, 10);
            }
        },
        SessionStatus::Failed => {
            reveal_strlit("Failed");
            reveal_strlit("failed");
            assert("Failed"@ =~= seq!['F', 'a', 'i', 'l', 'e', 'd']);
            assert("failed"@ =~= seq!['f', 'a', 'i', 'l', 'e', 'd']);
            assert(snake_case(seq!['F', 'a', 'i', 'l', 'e', 'd']) =~= seq!['f', 'a', 'i', 'l', 'e', 'd']) by {
                reveal_with_fuel(snake_case, 7);
            }
        },
        SessionStatus::Abandoned => {
            reveal_strlit("Abandoned");
            reveal_strlit("abandoned");
            assert("Abandoned"@ =~= seq!['A', 'b', 'a', 'n', 'd', 'o', 'n', 'e', 'd']);
            assert("abandoned"@ =~= seq!['a', 'b', 'a', 'n', 'd', 'o', 'n', 'e', 'd']);
            assert(snake_case(seq!['A', 'b', 'a', 'n', 'd', 'o', 'n', 'e', 'd']) =~= seq!['a', 'b', 'a', 'n', 'd', 'o', 'n', 'e', 'd']) by {
                reveal_with_fuel(snake_case, 10);
            }
        },
    }
}

/// The code stored for every goal priority is the snake-case form of its
/// name.
pub proof fn goal_priority_codes_are_snake_case(s: GoalPriority)
    ensures
        s.code_spec() == snake_case(s.name_spec()),
{
    match s {
        GoalPriority::Low => {
            reveal_strlit("Low");
            reveal_strlit("low");
            assert("Low"@ =~= seq!['L', 'o', 'w']);
            assert("low"@ =~= seq!['l', 'o', 'w']);
            assert(snake_case(seq!['L', 'o', 'w']) =~= seq!['l', 'o', 'w']) by {
                reveal_with_fuel(snake_case, 4);
            }
        },
        GoalPriority::Medium => {
            reveal_strlit("Medium");
            reveal_strlit("medium");
            assert("Medium"@ =~= seq!['M', 'e', 'd', 'i', 'u', 'm']);
            assert("medium"@ =~= seq!['m', 'e', 'd', 'i', 'u', 'm']);
            assert(snake_case(seq!['M', 'e', 'd', 'i', 'u', 'm']) =~= seq!['m', 'e', 'd', 'i', 'u', 'm']) by {
                reveal_with_fuel(snake_case, 7);
            }
        },
        GoalPriority::High => {
            reveal_strlit("High");
            reveal_strlit("high");
            assert("High"@ =~= seq!['H', 'i', 'g', 'h']);
            assert("high"@ =~= seq!['h', 'i', 'g', 'h']);
            assert(snake_case(seq!['H', 'i', 'g', 'h']) =~= seq!['h', 'i', 'g', 'h']) by {
                reveal_with_fuel(snake_case, 5);
            }
        },
        GoalPriority::Critical => {
            reveal_strlit("Critical");
            reveal_strlit("critical");
            assert("Critical"@ =~= seq!['C', 'r', 'i', 't', 'i', 'c', 'a', 'l']);
            assert("critical"@ =~= seq!['c', 'r', 'i', 't', 'i', 'c', 'a', 'l']);
            assert(snake_case(seq!['C', 'r', 'i', 't', 'i', 'c', 'a', 'l']) =~= seq!['c', 'r', 'i', 't', 'i', 'c', 'a', 'l']) by {
                reveal_with_fuel(snake_case, 9);
            }
        },
    }
}

/// The code stored for every tool status is the snake-case form of its
/// name.
pub proof fn tool_status_codes_are_snake_case(s: ToolStatus)
    ensures
        s.code_spec() == snake_case(s.name_spec()),
{
    match s {
        ToolStatus::Pending => {
            reveal_strlit("Pending");
            reveal_strlit("pending");
            assert("Pending"@ =~= seq!['P', 'e', 'n', 'd', 'i', 'n', 'g']);
            assert("pending"@ =~= seq!['p', 'e', 'n', 'd', 'i', 'n', 'g']);
            assert(snake_case(seq!['P', 'e', 'n', 'd', 'i', 'n', 'g']) =~= seq!['p', 'e', 'n', 'd', 'i', 'n', 'g']) by {
                reveal_with_fuel(snake_case, 8);
            }
        },
        ToolStatus::Running => {
            reveal_strlit("Running");
            reveal_strlit("running");
            assert("Running"@ =~= seq!['R', 'u', 'n', 'n', 'i', 'n', 'g']);
            assert("running"@ =~= seq!['r', 'u', 'n', 'n', 'i', 'n', 'g']);
            assert(snake_case(seq!['R', 'u', 'n', 'n', 'i', 'n', 'g']) =~= seq!['r', 'u', 'n', 'n', 'i', 'n', 'g']) by {
                reveal_with_fuel(snake_case, 8);
            }
        },
        ToolStatus::Completed => {
            reveal_strlit("Completed");
            reveal_strlit("completed");
            assert("Completed"@ =~= seq!['C', 'o', 'm', 'p', 'l', 'e', 't', 'e', 'd']);
            assert("completed"@ =~= seq!['c', 'o', 'm', 'p', 'l', 'e', 't', 'e', 'd']);
            assert(snake_case(seq!['C', 'o', 'm', 'p', 'l', 'e', 't', 'e', 'd']) =~= seq!['c', 'o', 'm', 'p', 'l', 'e', 't', 'e', 'd']) by {
                reveal_with_fuel(snake_case, 10);
            }
        },
        ToolStatus::Failed => {
            reveal_strlit("Failed");
            reveal_strlit("failed");
            assert("Failed"@ =~= seq!['F', 'a', 'i', 'l', 'e', 'd']);
            assert("failed"@ =~= seq!['f', 'a', 'i', 'l', 'e', 'd']);
            assert(snake_case(seq!['F', 'a', 'i', 'l', 'e', 'd']) =~= seq!['f', 'a', 'i', 'l', 'e', 'd']) by {
                reveal_with_fuel(snake_case, 7);
            }
        },
        ToolStatus::Cancelled => {
            reveal_strlit("Cancelled");
            reveal_strlit("cancelled");
            assert("Cancelled"@ =~= seq!['C', 'a', 'n', 'c', 'e', 'l', 'l', 'e', 'd']);
            assert("cancelled"@ =~= seq!['c', 'a', 'n', 'c', 'e', 'l', 'l', 'e', 'd']);
            assert(snake_case(seq!['C', 'a', 'n', 'c', 'e', 'l', 'l', 'e', 'd']) =~= seq!['c', 'a', 'n', 'c', 'e', 'l', 'l', 'e', 'd']) by {
                reveal_with_fuel(snake_case, 10);
            }
        },
    }
}

impl MemoryType {
    /// The name of the variant, as `{:?}` writes it.
    pub open spec fn name_spec(self) -> Seq<char> {
        match self {
            MemoryType::ShortTerm => "ShortTerm"@,
            MemoryType::LongTerm => "LongTerm"@,
        }
    }
}

/// The code stored for every memory type is the snake-case form of
/// its name.
pub proof fn memory_type_codes_are_snake_case(s: MemoryType)
    ensures
        s.code_spec() == snake_case(s.name_spec()),
{
    match s {
        MemoryType::ShortTerm => {
            reveal_strlit("ShortTerm");
            reveal_strlit("short_term");
            assert("ShortTerm"@ =~= seq!['S', 'h', 'o', 'r', 't', 'T', 'e', 'r', 'm']);
            assert("short_term"@ =~= seq!['s', 'h', 'o', 'r', 't', '_', 't', 'e', 'r', 'm']);
            assert(snake_case(seq!['S', 'h', 'o', 'r', 't', 'T', 'e', 'r', 'm']) =~= seq!['s', 'h', 'o', 'r', 't', '_', 't', 'e', 'r', 'm']) by {
                reveal_with_fuel(snake_case, 10);
            }
        },
        MemoryType::LongTerm => {
            reveal_strlit("LongTerm");
            reveal_strlit("long_term");
            assert("LongTerm"@ =~= seq!['L', 'o', 'n', 'g', 'T', 'e', 'r', 'm']);
            assert("long_term"@ =~= seq!['l', 'o', 'n', 'g', '_', 't', 'e', 'r', 'm']);
            assert(snake_case(seq!['L', 'o', 'n', 'g', 'T', 'e', 'r', 'm']) =~= seq!['l', 'o', 'n', 'g', '_', 't', 'e', 'r', 'm']) by {
                reveal_with_fuel(snake_case, 9);
            }
        },
    }
}

impl MemoryImportance {
    /// The name of the variant, as `{:?}` writes it.
    pub open spec fn name_spec(self) -> Seq<char> {
        match self {
            MemoryImportance::Low => "Low"@,
            MemoryImportance::Medium => "Medium"@,
            MemoryImportance::High => "High"@,
            MemoryImportance::Critical => "Critical"@,
        }
    }
}

/// The code stored for every memory importance is the snake-case form of
/// its name.
pub proof fn memory_importance_codes_are_snake_case(s: MemoryImportance)
    ensures
        s.code_spec() == snake_case(s.name_spec()),
{
    match s {
        MemoryImportance::Low => {
            reveal_strlit("Low");
            reveal_strlit("low");
            assert("Low"@ =~= seq!['L', 'o', 'w']);
            assert("low"@ =~= seq!['l', 'o', 'w']);
            assert(snake_case(seq!['L', 'o', 'w']) =~= seq!['l', 'o', 'w']) by {
                reveal_with_fuel(snake_case, 4);
            }
        },
        MemoryImportance::Medium => {
            reveal_strlit("Medium");
            reveal_strlit("medium");
            assert("Medium"@ =~= seq!['M', 'e', 'd', 'i', 'u', 'm']);
            assert("medium"@ =~= seq!['m', 'e', 'd', 'i', 'u', 'm']);
            assert(snake_case(seq!['M', 'e', 'd', 'i', 'u', 'm']) =~= seq!['m', 'e', 'd', 'i', 'u', 'm']) by {
                reveal_with_fuel(snake_case, 7);
            }
        },
        MemoryImportance::High => {
            reveal_strlit("High");
            reveal_strlit("high");
            assert("High"@ =~= seq!['H', 'i', 'g', 'h']);
            assert("high"@ =~= seq!['h', 'i', 'g', 'h']);
            assert(snake_case(seq!['H', 'i', 'g', 'h']) =~= seq!['h', 'i', 'g', 'h']) by {
                reveal_with_fuel(snake_case, 5);
            }
        },
        MemoryImportance::Critical => {
            reveal_strlit("Critical");
            reveal_strlit("critical");
            assert("Critical"@ =~= seq!['C', 'r', 'i', 't', 'i', 'c', 'a', 'l']);
            assert("critical"@ =~= seq!['c', 'r', 'i', 't', 'i', 'c', 'a', 'l']);
            assert(snake_case(seq!['C', 'r', 'i', 't', 'i', 'c', 'a', 'l']) =~= seq!['c', 'r', 'i', 't', 'i', 'c', 'a', 'l']) by {
                reveal_with_fuel(snake_case, 9);
            }
        },
    }
}

impl ChannelType {
    /// The name of the variant, as `{:?}` writes it.
    pub open spec fn name_spec(self) -> Seq<char> {
        match self {
            ChannelType::Chat => "Chat"@,
            ChannelType::Email => "Email"@,
            ChannelType::Calendar => "Calendar"@,
            ChannelType::Voice => "Voice"@,
            ChannelType::Webhook => "Webhook"@,
            ChannelType::Custom => "Custom"@,
        }
    }
}

/// The code stored for every channel type is the snake-case form of
/// its name.
pub proof fn channel_type_codes_are_snake_case(s: ChannelType)
    ensures
        s.code_spec() == snake_case(s.name_spec()),
{
    match s {
        ChannelType::Chat => {
            reveal_strlit("Chat");
            reveal_strlit("chat");
            assert("Chat"@ =~= seq!['C', 'h', 'a', 't']);
            assert("chat"@ =~= seq!['c', 'h', 'a', 't']);
            assert(snake_case(seq!['C', 'h', 'a', 't']) =~= seq!['c', 'h', 'a', 't']) by {
                reveal_with_fuel(snake_case, 5);
            }
        },
        ChannelType::Email => {
            reveal_strlit("Email");
            reveal_strlit("email");
            assert("Email"@ =~= seq!['E', 'm', 'a', 'i', 'l']);
            assert("email"@ =~= seq!['e', 'm', 'a', 'i', 'l']);
            assert(snake_case(seq!['E', 'm', 'a', 'i', 'l']) =~= seq!['e', 'm', 'a', 'i', 'l']) by {
                reveal_with_fuel(snake_case, 6);
            }
        },
        ChannelType::Calendar => {
            reveal_strlit("Calendar");
            reveal_strlit("calendar");
            assert("Calendar"@ =~= seq!['C', 'a', 'l', 'e', 'n', 'd', 'a', 'r']);
            assert("calendar"@ =~= seq!['c', 'a', 'l', 'e', 'n', 'd', 'a', 'r']);
            assert(snake_case(seq!['C', 'a', 'l', 'e', 'n', 'd', 'a', 'r']) =~= seq!['c', 'a', 'l', 'e', 'n', 'd', 'a', 'r']) by {
                reveal_with_fuel(snake_case, 9);
            }
        },
        ChannelType::Voice => {
            reveal_strlit("Voice");
            reveal_strlit("voice");
            assert("Voice"@ =~= seq!['V', 'o', 'i', 'c', 'e']);
            assert("voice"@ =~= seq!['v', 'o', 'i', 'c', 'e']);
            assert(snake_case(seq!['V', 'o', 'i', 'c', 'e']) =~= seq!['v', 'o', 'i', 'c', 'e']) by {
                reveal_with_fuel(snake_case, 6);
            }
        },
        ChannelType::Webhook => {
            reveal_strlit("Webhook");
            reveal_strlit("webhook");
            assert("Webhook"@ =~= seq!['W', 'e', 'b', 'h', 'o', 'o', 'k']);
            assert("webhook"@ =~= seq!['w', 'e', 'b', 'h', 'o', 'o', 'k']);
            assert(snake_case(seq!['W', 'e', 'b', 'h', 'o', 'o', 'k']) =~= seq!['w', 'e', 'b', 'h', 'o', 'o', 'k']) by {
                reveal_with_fuel(snake_case, 8);
            }
        },
        ChannelType::Custom => {
            reveal_strlit("Custom");
            reveal_strlit("custom");
            assert("Custom"@ =~= seq!['C', 'u', 's', 't', 'o', 'm']);
            assert("custom"@ =~= seq!['c', 'u', 's', 't', 'o', 'm']);
            assert(snake_case(seq!['C', 'u', 's', 't', 'o', 'm']) =~= seq!['c', 'u', 's', 't', 'o', 'm']) by {
                reveal_with_fuel(snake_case, 7);
            }
        },
    }
}

impl ChannelStatus {
    /// The name of the variant, as `{:?}` writes it.
    pub open spec fn name_spec(self) -> Seq<char> {
        match self {
            ChannelStatus::Active => "Active"@,
            ChannelStatus::Paused => "Paused"@,
            ChannelStatus::Inactive => "Inactive"@,
        }
    }
}

/// The code stored for every channel status is the snake-case form of
/// its name.
pub proof fn channel_status_codes_are_snake_case(s: ChannelStatus)
    ensures
        s.code_spec() == snake_case(s.name_spec()),
{
    match s {
        ChannelStatus::Active => {
            reveal_strlit("Active");
            reveal_strlit("active");
            assert("Active"@ =~= seq!['A', 'c', 't', 'i', 'v', 'e']);
            assert("active"@ =~= seq!['a', 'c', 't', 'i', 'v', 'e']);
            assert(snake_case(seq!['A', 'c', 't', 'i', 'v', 'e']) =~= seq!['a', 'c', 't', 'i', 'v', 'e']) by {
                reveal_with_fuel(snake_case, 7);
            }
        },
        ChannelStatus::Paused => {
            reveal_strlit("Paused");
            reveal_strlit("paused");
            assert("Paused"@ =~= seq!['P', 'a', 'u', 's', 'e', 'd']);
            assert("paused"@ =~= seq!['p', 'a', 'u', 's', 'e', 'd']);
            assert(snake_case(seq!['P', 'a', 'u', 's', 'e', 'd']) =~= seq!['p', 'a', 'u', 's', 'e', 'd']) by {
                reveal_with_fuel(snake_case, 7);
            }
        },
        ChannelStatus::Inactive => {
            reveal_strlit("Inactive");
            reveal_strlit("inactive");
            assert("Inactive"@ =~= seq!['I', 'n', 'a', 'c', 't', 'i', 'v', 'e']);
            assert("inactive"@ =~= seq!['i', 'n', 'a', 'c', 't', 'i', 'v', 'e']);
            assert(snake_case(seq!['I', 'n', 'a', 'c', 't', 'i', 'v', 'e']) =~= seq!['i', 'n', 'a', 'c', 't', 'i', 'v', 'e']) by {
                reveal_with_fuel(snake_case, 9);
            }
        },
    }
}

} // verus!
