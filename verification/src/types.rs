//! Re-exports of commonly used request and response types.

pub use crate::client::AuthCheckData;
pub use crate::client::AuthCheckResponse;
pub use crate::client::HealthData;
pub use crate::client::HealthResponse;

pub use crate::emails::Attachment;
pub use crate::emails::CreateEmailOptions;
pub use crate::emails::EmailEvent;
pub use crate::emails::EmailEventDetail;
pub use crate::emails::EmailOptions;
pub use crate::emails::GetEmailResponse;
pub use crate::emails::ListEmailsOptions;
pub use crate::emails::ListEmailsResponse;
pub use crate::emails::Pagination;
pub use crate::emails::SendEmailResponse;

pub use crate::domains::CreateDomainResponse;
pub use crate::domains::DkimDnsRecord;
pub use crate::domains::DkimInfo;
pub use crate::domains::DnsRecords;
pub use crate::domains::Domain;
pub use crate::domains::DomainDetail;

pub use crate::webhooks::Webhook;

pub use crate::templates::CreateTemplateOptions;
pub use crate::templates::CreateTemplateResponse;
pub use crate::templates::ListTemplatesOptions;
pub use crate::templates::ListTemplatesResponse;
pub use crate::templates::MergeTag;
pub use crate::templates::Template;
pub use crate::templates::TemplatePagination;

pub use crate::error::ApiError;
pub use crate::error::ValidationError;
