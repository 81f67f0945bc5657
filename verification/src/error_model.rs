//! The institutional error model: categorised errors that carry the
//! operation they arose in, a message, and optionally where they came from.

use vstd::prelude::*;
use crate::text::{concat3, owned};

verus! {

/// The category of an institutional error.
#[derive(Debug, Clone, Copy, PartialEq, Eq)]
pub enum InstitutionalErrorCategory {
    Configuration,
    Transport,
    DependencyUnavailable,
    Parse,
    Validation,
    PolicyDenied,
    ApprovalDenied,
    DomainStateViolation,
    Persistence,
    Timeout,
    Cancelled,
    InvariantViolation,
    NotFound,
    IdentityViolation,
}

/// The subsystem and operation an error arose in, with optional identities.
#[derive(Debug, Clone, PartialEq, Eq)]
pub struct OperationContext {
    pub subsystem: String,
    pub service_id: Option<String>,
    pub workflow_id: Option<String>,
    pub correlation_id: Option<String>,
    pub operation: String,
}

impl OperationContext {
    /// A context for `operation` in `subsystem`, with no identities.
    pub fn new(subsystem: &str, operation: &str) -> (c: OperationContext)
        ensures
            c.subsystem@ == subsystem@,
            c.operation@ == operation@,
            c.service_id is None,
            c.workflow_id is None,
            c.correlation_id is None,
    {
        OperationContext {
            subsystem: owned(subsystem),
            service_id: None,
            workflow_id: None,
            correlation_id: None,
            operation: owned(operation),
        }
    }

    /// This context tagged with a service identity.
    pub fn with_service_id(self, service_id: &str) -> (c: OperationContext)
        ensures
            c.service_id matches Some(id) && id@ == service_id@,
            c.subsystem == self.subsystem,
            c.operation == self.operation,
            c.workflow_id == self.workflow_id,
            c.correlation_id == self.correlation_id,
    {
        let mut c = self;
        c.service_id = Some(owned(service_id));
        c
    }

    /// This context tagged with a workflow identity.
    pub fn with_workflow_id(self, workflow_id: &str) -> (c: OperationContext)
        ensures
            c.workflow_id matches Some(id) && id@ == workflow_id@,
            c.subsystem == self.subsystem,
            c.operation == self.operation,
            c.service_id == self.service_id,
            c.correlation_id == self.correlation_id,
    {
        let mut c = self;
        c.workflow_id = Some(owned(workflow_id));
        c
    }

    /// This context tagged with a correlation identity.
    pub fn with_correlation_id(self, correlation_id: &str) -> (c: OperationContext)
        ensures
            c.correlation_id matches Some(id) && id@ == correlation_id@,
            c.subsystem == self.subsystem,
            c.operation == self.operation,
            c.service_id == self.service_id,
            c.workflow_id == self.workflow_id,
    {
        let mut c = self;
        c.correlation_id = Some(owned(correlation_id));
        c
    }
}

/// Where an error came from: the originating system, the operation there,
/// and its details.
#[derive(Debug, Clone, PartialEq, Eq)]
pub struct SourceErrorInfo {
    pub origin: String,
    pub operation: Option<String>,
    pub details: String,
}

impl SourceErrorInfo {
    /// Source information from its parts.
    pub fn new(origin: &str, operation: Option<String>, details: &str) -> (s: SourceErrorInfo)
        ensures
            s.origin@ == origin@,
            s.operation == operation,
            s.details@ == details@,
    {
        SourceErrorInfo { origin: owned(origin), operation, details: owned(details) }
    }
}

/// An institutional error; every category carries a context, a message and
/// optional source information.
#[derive(Debug, Clone, PartialEq, Eq)]
pub enum InstitutionalError {
    Configuration {
        context: Box<OperationContext>,
        message: String,
        source_info: Option<Box<SourceErrorInfo>>,
    },
    Transport {
        context: Box<OperationContext>,
        message: String,
        source_info: Option<Box<SourceErrorInfo>>,
    },
    DependencyUnavailable {
        context: Box<OperationContext>,
        message: String,
        source_info: Option<Box<SourceErrorInfo>>,
    },
    Parse {
        context: Box<OperationContext>,
        message: String,
        source_info: Option<Box<SourceErrorInfo>>,
    },
    Validation {
        context: Box<OperationContext>,
        message: String,
        source_info: Option<Box<SourceErrorInfo>>,
    },
    PolicyDenied {
        context: Box<OperationContext>,
        message: String,
        source_info: Option<Box<SourceErrorInfo>>,
    },
    ApprovalDenied {
        context: Box<OperationContext>,
        message: String,
        source_info: Option<Box<SourceErrorInfo>>,
    },
    DomainStateViolation {
        context: Box<OperationContext>,
        message: String,
        source_info: Option<Box<SourceErrorInfo>>,
    },
    Persistence {
        context: Box<OperationContext>,
        message: String,
        source_info: Option<Box<SourceErrorInfo>>,
    },
    Timeout {
        context: Box<OperationContext>,
        message: String,
        source_info: Option<Box<SourceErrorInfo>>,
    },
    Cancelled {
        context: Box<OperationContext>,
        message: String,
        source_info: Option<Box<SourceErrorInfo>>,
    },
    InvariantViolation {
        context: Box<OperationContext>,
        message: String,
        source_info: Option<Box<SourceErrorInfo>>,
    },
    NotFound {
        context: Box<OperationContext>,
        message: String,
        source_info: Option<Box<SourceErrorInfo>>,
    },
    IdentityViolation {
        context: Box<OperationContext>,
        message: String,
        source_info: Option<Box<SourceErrorInfo>>,
    },
}

/// An error of the given category with the given parts.
pub open spec fn error_of(
    category: InstitutionalErrorCategory,
    context: OperationContext,
    message: String,
    source_info: Option<Box<SourceErrorInfo>>,
) -> InstitutionalError {
    let context = Box::new(context);
    match category {
        InstitutionalErrorCategory::Configuration => InstitutionalError::Configuration { context, message, source_info },
        InstitutionalErrorCategory::Transport => InstitutionalError::Transport { context, message, source_info },
        InstitutionalErrorCategory::DependencyUnavailable => InstitutionalError::DependencyUnavailable { context, message, source_info },
        InstitutionalErrorCategory::Parse => InstitutionalError::Parse { context, message, source_info },
        InstitutionalErrorCategory::Validation => InstitutionalError::Validation { context, message, source_info },
        InstitutionalErrorCategory::PolicyDenied => InstitutionalError::PolicyDenied { context, message, source_info },
        InstitutionalErrorCategory::ApprovalDenied => InstitutionalError::ApprovalDenied { context, message, source_info },
        InstitutionalErrorCategory::DomainStateViolation => InstitutionalError::DomainStateViolation { context, message, source_info },
        InstitutionalErrorCategory::Persistence => InstitutionalError::Persistence { context, message, source_info },
        InstitutionalErrorCategory::Timeout => InstitutionalError::Timeout { context, message, source_info },
        InstitutionalErrorCategory::Cancelled => InstitutionalError::Cancelled { context, message, source_info },
        InstitutionalErrorCategory::InvariantViolation => InstitutionalError::InvariantViolation { context, message, source_info },
        InstitutionalErrorCategory::NotFound => InstitutionalError::NotFound { context, message, source_info },
        InstitutionalErrorCategory::IdentityViolation => InstitutionalError::IdentityViolation { context, message, source_info },
    }
}

/// The display text of a category.
pub open spec fn category_text(category: InstitutionalErrorCategory) -> Seq<char> {
    match category {
        InstitutionalErrorCategory::Configuration => "configuration failure"@,
        InstitutionalErrorCategory::Transport => "transport failure"@,
        InstitutionalErrorCategory::DependencyUnavailable => "dependency unavailable"@,
        InstitutionalErrorCategory::Parse => "parse failure"@,
        InstitutionalErrorCategory::Validation => "validation failure"@,
        InstitutionalErrorCategory::PolicyDenied => "policy denial"@,
        InstitutionalErrorCategory::ApprovalDenied => "approval denial"@,
        InstitutionalErrorCategory::DomainStateViolation => "domain state violation"@,
        InstitutionalErrorCategory::Persistence => "persistence failure"@,
        InstitutionalErrorCategory::Timeout => "timeout"@,
        InstitutionalErrorCategory::Cancelled => "cancellation"@,
        InstitutionalErrorCategory::InvariantViolation => "invariant violation"@,
        InstitutionalErrorCategory::NotFound => "not found"@,
        InstitutionalErrorCategory::IdentityViolation => "identity violation"@,
    }
}

impl InstitutionalError {
    /// The category of this error.
    pub open spec fn kind(&self) -> InstitutionalErrorCategory {
        match self {
            InstitutionalError::Configuration { .. } => InstitutionalErrorCategory::Configuration,
            InstitutionalError::Transport { .. } => InstitutionalErrorCategory::Transport,
            InstitutionalError::DependencyUnavailable { .. } => InstitutionalErrorCategory::DependencyUnavailable,
            InstitutionalError::Parse { .. } => InstitutionalErrorCategory::Parse,
            InstitutionalError::Validation { .. } => InstitutionalErrorCategory::Validation,
            InstitutionalError::PolicyDenied { .. } => InstitutionalErrorCategory::PolicyDenied,
            InstitutionalError::ApprovalDenied { .. } => InstitutionalErrorCategory::ApprovalDenied,
            InstitutionalError::DomainStateViolation { .. } => InstitutionalErrorCategory::DomainStateViolation,
            InstitutionalError::Persistence { .. } => InstitutionalErrorCategory::Persistence,
            InstitutionalError::Timeout { .. } => InstitutionalErrorCategory::Timeout,
            InstitutionalError::Cancelled { .. } => InstitutionalErrorCategory::Cancelled,
            InstitutionalError::InvariantViolation { .. } => InstitutionalErrorCategory::InvariantViolation,
            InstitutionalError::NotFound { .. } => InstitutionalErrorCategory::NotFound,
            InstitutionalError::IdentityViolation { .. } => InstitutionalErrorCategory::IdentityViolation,
        }
    }

    /// The context of this error.
    pub open spec fn ctx(&self) -> OperationContext {
        match self {
            InstitutionalError::Configuration { context, .. } => **context,
            InstitutionalError::Transport { context, .. } => **context,
            InstitutionalError::DependencyUnavailable { context, .. } => **context,
            InstitutionalError::Parse { context, .. } => **context,
            InstitutionalError::Validation { context, .. } => **context,
            InstitutionalError::PolicyDenied { context, .. } => **context,
            InstitutionalError::ApprovalDenied { context, .. } => **context,
            InstitutionalError::DomainStateViolation { context, .. } => **context,
            InstitutionalError::Persistence { context, .. } => **context,
            InstitutionalError::Timeout { context, .. } => **context,
            InstitutionalError::Cancelled { context, .. } => **context,
            InstitutionalError::InvariantViolation { context, .. } => **context,
            InstitutionalError::NotFound { context, .. } => **context,
            InstitutionalError::IdentityViolation { context, .. } => **context,
        }
    }

    /// The message of this error.
    pub open spec fn msg(&self) -> String {
        match self {
            InstitutionalError::Configuration { message, .. } => *message,
            InstitutionalError::Transport { message, .. } => *message,
            InstitutionalError::DependencyUnavailable { message, .. } => *message,
            InstitutionalError::Parse { message, .. } => *message,
            InstitutionalError::Validation { message, .. } => *message,
            InstitutionalError::PolicyDenied { message, .. } => *message,
            InstitutionalError::ApprovalDenied { message, .. } => *message,
            InstitutionalError::DomainStateViolation { message, .. } => *message,
            InstitutionalError::Persistence { message, .. } => *message,
            InstitutionalError::Timeout { message, .. } => *message,
            InstitutionalError::Cancelled { message, .. } => *message,
            InstitutionalError::InvariantViolation { message, .. } => *message,
            InstitutionalError::NotFound { message, .. } => *message,
            InstitutionalError::IdentityViolation { message, .. } => *message,
        }
    }

    /// The source information of this error.
    pub open spec fn src(&self) -> Option<SourceErrorInfo> {
        match self {
            InstitutionalError::Configuration { source_info, .. } => match source_info {
                Some(b) => Some(**b),
                None => None,
            },
            InstitutionalError::Transport { source_info, .. } => match source_info {
                Some(b) => Some(**b),
                None => None,
            },
            InstitutionalError::DependencyUnavailable { source_info, .. } => match source_info {
                Some(b) => Some(**b),
                None => None,
            },
            InstitutionalError::Parse { source_info, .. } => match source_info {
                Some(b) => Some(**b),
                None => None,
            },
            InstitutionalError::Validation { source_info, .. } => match source_info {
                Some(b) => Some(**b),
                None => None,
            },
            InstitutionalError::PolicyDenied { source_info, .. } => match source_info {
                Some(b) => Some(**b),
                None => None,
            },
            InstitutionalError::ApprovalDenied { source_info, .. } => match source_info {
                Some(b) => Some(**b),
                None => None,
            },
            InstitutionalError::DomainStateViolation { source_info, .. } => match source_info {
                Some(b) => Some(**b),
                None => None,
            },
            InstitutionalError::Persistence { source_info, .. } => match source_info {
                Some(b) => Some(**b),
                None => None,
            },
            InstitutionalError::Timeout { source_info, .. } => match source_info {
                Some(b) => Some(**b),
                None => None,
            },
            InstitutionalError::Cancelled { source_info, .. } => match source_info {
                Some(b) => Some(**b),
                None => None,
            },
            InstitutionalError::InvariantViolation { source_info, .. } => match source_info {
                Some(b) => Some(**b),
                None => None,
            },
            InstitutionalError::NotFound { source_info, .. } => match source_info {
                Some(b) => Some(**b),
                None => None,
            },
            InstitutionalError::IdentityViolation { source_info, .. } => match source_info {
                Some(b) => Some(**b),
                None => None,
            },
        }
    }

    /// The text an error displays: its category, where it arose, and its
    /// message.
    pub open spec fn display_text(&self) -> Seq<char> {
        category_text(self.kind()) + " in `"@ + self.ctx().subsystem@ + "` during `"@
            + self.ctx().operation@ + "`: "@ + self.msg()@
    }

    fn parts(&self) -> (r: (&OperationContext, &String, &Option<Box<SourceErrorInfo>>))
        ensures
            *r.0 == self.ctx(),
            *r.1 == self.msg(),
            match *r.2 {
                Some(b) => self.src() == Some(*b),
                None => self.src() is None,
            },
    {
        match self {
            InstitutionalError::Configuration { context, message, source_info } => (&**context, message, source_info),
            InstitutionalError::Transport { context, message, source_info } => (&**context, message, source_info),
            InstitutionalError::DependencyUnavailable { context, message, source_info } => (&**context, message, source_info),
            InstitutionalError::Parse { context, message, source_info } => (&**context, message, source_info),
            InstitutionalError::Validation { context, message, source_info } => (&**context, message, source_info),
            InstitutionalError::PolicyDenied { context, message, source_info } => (&**context, message, source_info),
            InstitutionalError::ApprovalDenied { context, message, source_info } => (&**context, message, source_info),
            InstitutionalError::DomainStateViolation { context, message, source_info } => (&**context, message, source_info),
            InstitutionalError::Persistence { context, message, source_info } => (&**context, message, source_info),
            InstitutionalError::Timeout { context, message, source_info } => (&**context, message, source_info),
            InstitutionalError::Cancelled { context, message, source_info } => (&**context, message, source_info),
            InstitutionalError::InvariantViolation { context, message, source_info } => (&**context, message, source_info),
            InstitutionalError::NotFound { context, message, source_info } => (&**context, message, source_info),
            InstitutionalError::IdentityViolation { context, message, source_info } => (&**context, message, source_info),
        }
    }

    /// The category of this error.
    pub fn category(&self) -> (c: InstitutionalErrorCategory)
        ensures
            c == self.kind(),
    {
        match self {
            InstitutionalError::Configuration { .. } => InstitutionalErrorCategory::Configuration,
            InstitutionalError::Transport { .. } => InstitutionalErrorCategory::Transport,
            InstitutionalError::DependencyUnavailable { .. } => InstitutionalErrorCategory::DependencyUnavailable,
            InstitutionalError::Parse { .. } => InstitutionalErrorCategory::Parse,
            InstitutionalError::Validation { .. } => InstitutionalErrorCategory::Validation,
            InstitutionalError::PolicyDenied { .. } => InstitutionalErrorCategory::PolicyDenied,
            InstitutionalError::ApprovalDenied { .. } => InstitutionalErrorCategory::ApprovalDenied,
            InstitutionalError::DomainStateViolation { .. } => InstitutionalErrorCategory::DomainStateViolation,
            InstitutionalError::Persistence { .. } => InstitutionalErrorCategory::Persistence,
            InstitutionalError::Timeout { .. } => InstitutionalErrorCategory::Timeout,
            InstitutionalError::Cancelled { .. } => InstitutionalErrorCategory::Cancelled,
            InstitutionalError::InvariantViolation { .. } => InstitutionalErrorCategory::InvariantViolation,
            InstitutionalError::NotFound { .. } => InstitutionalErrorCategory::NotFound,
            InstitutionalError::IdentityViolation { .. } => InstitutionalErrorCategory::IdentityViolation,
        }
    }

    /// The context this error arose in.
    pub fn context(&self) -> (c: &OperationContext)
        ensures
            *c == self.ctx(),
    {
        self.parts().0
    }

    /// The message of this error.
    pub fn message(&self) -> (m: &str)
        ensures
            m@ == self.msg()@,
    {
        self.parts().1.as_str()
    }

    /// Where this error came from, if known.
    pub fn source_info(&self) -> (s: Option<&SourceErrorInfo>)
        ensures
            match s {
                Some(i) => self.src() == Some(*i),
                None => self.src() is None,
            },
    {
        match self.parts().2 {
            Some(b) => Some(&**b),
            None => None,
        }
    }

    /// The display text of this error.
    pub fn to_display_string(&self) -> (s: String)
        ensures
            s@ == self.display_text(),
    {
        let text = match self.category() {
            InstitutionalErrorCategory::Configuration => "configuration failure",
            InstitutionalErrorCategory::Transport => "transport failure",
            InstitutionalErrorCategory::DependencyUnavailable => "dependency unavailable",
            InstitutionalErrorCategory::Parse => "parse failure",
            InstitutionalErrorCategory::Validation => "validation failure",
            InstitutionalErrorCategory::PolicyDenied => "policy denial",
            InstitutionalErrorCategory::ApprovalDenied => "approval denial",
            InstitutionalErrorCategory::DomainStateViolation => "domain state violation",
            InstitutionalErrorCategory::Persistence => "persistence failure",
            InstitutionalErrorCategory::Timeout => "timeout",
            InstitutionalErrorCategory::Cancelled => "cancellation",
            InstitutionalErrorCategory::InvariantViolation => "invariant violation",
            InstitutionalErrorCategory::NotFound => "not found",
            InstitutionalErrorCategory::IdentityViolation => "identity violation",
        };
        let (context, message, _) = self.parts();
        let mut s = concat3(text, " in `", context.subsystem.as_str());
        s.append("` during `");
        s.append(context.operation.as_str());
        s.append("`: ");
        s.append(message.as_str());
        s
    }

    /// An error of category `Configuration` without source information.
    pub fn configuration(context: OperationContext, message: &str) -> (e: InstitutionalError)
        ensures
            e.kind() == InstitutionalErrorCategory::Configuration,
            e.ctx() == context,
            e.msg()@ == message@,
            e.src() is None,
    {
        InstitutionalError::Configuration { context: Box::new(context), message: owned(message), source_info: None }
    }

    /// An error of category `Transport` without source information.
    pub fn transport(context: OperationContext, message: &str) -> (e: InstitutionalError)
        ensures
            e.kind() == InstitutionalErrorCategory::Transport,
            e.ctx() == context,
            e.msg()@ == message@,
            e.src() is None,
    {
        InstitutionalError::Transport { context: Box::new(context), message: owned(message), source_info: None }
    }

    /// An error of category `DependencyUnavailable` without source information.
    pub fn dependency_unavailable(context: OperationContext, message: &str) -> (e: InstitutionalError)
        ensures
            e.kind() == InstitutionalErrorCategory::DependencyUnavailable,
            e.ctx() == context,
            e.msg()@ == message@,
            e.src() is None,
    {
        InstitutionalError::DependencyUnavailable { context: Box::new(context), message: owned(message), source_info: None }
    }

    /// An error of category `Validation` without source information.
    pub fn validation(context: OperationContext, message: &str) -> (e: InstitutionalError)
        ensures
            e.kind() == InstitutionalErrorCategory::Validation,
            e.ctx() == context,
            e.msg()@ == message@,
            e.src() is None,
    {
        InstitutionalError::Validation { context: Box::new(context), message: owned(message), source_info: None }
    }

    /// An error of category `PolicyDenied` without source information.
    pub fn policy_denied(context: OperationContext, message: &str) -> (e: InstitutionalError)
        ensures
            e.kind() == InstitutionalErrorCategory::PolicyDenied,
            e.ctx() == context,
            e.msg()@ == message@,
            e.src() is None,
    {
        InstitutionalError::PolicyDenied { context: Box::new(context), message: owned(message), source_info: None }
    }

    /// An error of category `ApprovalDenied` without source information.
    pub fn approval_denied(context: OperationContext, message: &str) -> (e: InstitutionalError)
        ensures
            e.kind() == InstitutionalErrorCategory::ApprovalDenied,
            e.ctx() == context,
            e.msg()@ == message@,
            e.src() is None,
    {
        InstitutionalError::ApprovalDenied { context: Box::new(context), message: owned(message), source_info: None }
    }

    /// An error of category `NotFound` without source information.
    pub fn not_found(context: OperationContext, message: &str) -> (e: InstitutionalError)
        ensures
            e.kind() == InstitutionalErrorCategory::NotFound,
            e.ctx() == context,
            e.msg()@ == message@,
            e.src() is None,
    {
        InstitutionalError::NotFound { context: Box::new(context), message: owned(message), source_info: None }
    }

    /// An error of category `InvariantViolation` without source information.
    pub fn invariant_violation(context: OperationContext, message: &str) -> (e: InstitutionalError)
        ensures
            e.kind() == InstitutionalErrorCategory::InvariantViolation,
            e.ctx() == context,
            e.msg()@ == message@,
            e.src() is None,
    {
        InstitutionalError::InvariantViolation { context: Box::new(context), message: owned(message), source_info: None }
    }

    /// An error of category `IdentityViolation` without source information.
    pub fn identity_violation(context: OperationContext, message: &str) -> (e: InstitutionalError)
        ensures
            e.kind() == InstitutionalErrorCategory::IdentityViolation,
            e.ctx() == context,
            e.msg()@ == message@,
            e.src() is None,
    {
        InstitutionalError::IdentityViolation { context: Box::new(context), message: owned(message), source_info: None }
    }

    /// A persistence error with the source that caused it.
    pub fn persistence(context: OperationContext, message: &str, source: SourceErrorInfo) -> (e: InstitutionalError)
        ensures
            e.kind() == InstitutionalErrorCategory::Persistence,
            e.ctx() == context,
            e.msg()@ == message@,
            e.src() == Some(source),
    {
        InstitutionalError::Persistence {
            context: Box::new(context),
            message: owned(message),
            source_info: Some(Box::new(source)),
        }
    }

    /// A failure to parse `source_name`, reported by the generic parser.
    pub fn parse(source_name: &str, details: &str) -> (e: InstitutionalError)
        ensures
            e.kind() == InstitutionalErrorCategory::Parse,
            e.ctx().subsystem@ == "parser"@,
            e.ctx().operation@ == "parse"@,
            e.ctx().service_id is None && e.ctx().workflow_id is None && e.ctx().correlation_id is None,
            e.msg()@ == "failed to parse `"@ + source_name@ + "`"@,
            e.src() matches Some(s) && s.origin@ == "parse"@ && s.operation is None && s.details@ == details@,
    {
        InstitutionalError::Parse {
            context: Box::new(OperationContext::new("parser", "parse")),
            message: concat3("failed to parse `", source_name, "`"),
            source_info: Some(Box::new(SourceErrorInfo::new("parse", None, details))),
        }
    }

    /// A failure of `parser` to parse `source_name`.
    pub fn parse_with_parser(source_name: &str, parser: &str, details: &str) -> (e: InstitutionalError)
        ensures
            e.kind() == InstitutionalErrorCategory::Parse,
            e.ctx().subsystem@ == "parser"@,
            e.ctx().operation@ == parser@,
            e.ctx().service_id is None && e.ctx().workflow_id is None && e.ctx().correlation_id is None,
            e.msg()@ == "failed to parse `"@ + source_name@ + "`"@,
            e.src() matches Some(s) && s.origin@ == source_name@
                && (s.operation matches Some(op) && op@ == parser@) && s.details@ == details@,
    {
        InstitutionalError::Parse {
            context: Box::new(OperationContext::new("parser", parser)),
            message: concat3("failed to parse `", source_name, "`"),
            source_info: Some(Box::new(SourceErrorInfo::new(source_name, Some(owned(parser)), details))),
        }
    }

    /// A failed operation of an external dependency, as a transport error;
    /// the operation defaults to `external`.
    pub fn external(system: &str, operation: Option<String>, details: &str) -> (e: InstitutionalError)
        ensures
            e.kind() == InstitutionalErrorCategory::Transport,
            e.ctx().subsystem@ == system@,
            e.ctx().operation@ == match operation {
                Some(op) => op@,
                None => "external"@,
            },
            e.ctx().service_id is None && e.ctx().workflow_id is None && e.ctx().correlation_id is None,
            e.msg()@ == "dependency `"@ + system@ + "` operation failed"@,
            e.src() matches Some(s) && s.origin@ == system@ && s.operation == operation && s.details@ == details@,
    {
        let op_name = match &operation {
            Some(op) => op.clone(),
            None => owned("external"),
        };
        InstitutionalError::Transport {
            context: Box::new(OperationContext::new(system, op_name.as_str())),
            message: concat3("dependency `", system, "` operation failed"),
            source_info: Some(Box::new(SourceErrorInfo::new(system, operation, details))),
        }
    }
}

/// An error is determined by its category, context, message and source:
/// rebuilding it from the four parts its accessors report gives it back.
pub proof fn law_error_is_its_parts(e: InstitutionalError)
    ensures
        error_of(e.kind(), e.ctx(), e.msg(), match e.src() {
            Some(s) => Some(Box::new(s)),
            None => None,
        }) == e,
{
}

} // verus!
