//! Verified core of the OpenAuth plugins: one-time codes for e-mail sign-in,
//! the MCP OAuth helpers, the multi-session cookie rule and the organization
//! plugin's roles, permissions and request decisions.

pub mod text;
pub mod crypto;
pub mod email_otp;
pub mod organization;
pub mod mcp;
pub mod response;
pub mod multi_session;
pub mod haveibeenpwned;
pub mod schema;
