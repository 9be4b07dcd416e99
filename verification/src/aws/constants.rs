//! Names of the environment variables that the AWS providers read.

use vstd::prelude::*;

verus! {

/// The access key id.
pub const AWS_ACCESS_KEY_ID: &'static str = "AWS_ACCESS_KEY_ID";

/// The secret key.
pub const AWS_SECRET_ACCESS_KEY: &'static str = "AWS_SECRET_ACCESS_KEY";

/// The session token of temporary credentials.
pub const AWS_SESSION_TOKEN: &'static str = "AWS_SESSION_TOKEN";

/// The region.
pub const AWS_REGION: &'static str = "AWS_REGION";

/// The name of the active profile.
pub const AWS_PROFILE: &'static str = "AWS_PROFILE";

/// The path of the config file.
pub const AWS_CONFIG_FILE: &'static str = "AWS_CONFIG_FILE";

/// The path of the shared credentials file.
pub const AWS_SHARED_CREDENTIALS_FILE: &'static str = "AWS_SHARED_CREDENTIALS_FILE";

/// The path of the file that holds the web identity token.
pub const AWS_WEB_IDENTITY_TOKEN_FILE: &'static str = "AWS_WEB_IDENTITY_TOKEN_FILE";

/// The role to assume.
pub const AWS_ROLE_ARN: &'static str = "AWS_ROLE_ARN";

/// The name of the session under which the role is assumed.
pub const AWS_ROLE_SESSION_NAME: &'static str = "AWS_ROLE_SESSION_NAME";

/// Whether the regional endpoints of the Security Token Service are used.
pub const AWS_STS_REGIONAL_ENDPOINTS: &'static str = "AWS_STS_REGIONAL_ENDPOINTS";

} // verus!
