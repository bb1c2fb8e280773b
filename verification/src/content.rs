//! The boilerplate that a new descriptor file starts from.

use vstd::prelude::*;
use vstd::string::*;

verus! {

/// The text of a new descriptor file: the fields to fill in, each with a
/// comment. It is a template for the user to edit, not yet a descriptor.
pub const CONFIG_EXAMPLE: &'static str = "{
    // BUILD CONFIGURATION
    // Array of shell commands to compile the application
    // Executed in sequence from the repository root
    \"build\": [
        \"cargo build --release\"  // example Rust release build or npm run build
    ],

    // DEPLOYMENT MAPPING
    // Array of file operations to deploy build artifacts
    // Each entry specifies:
    // - \"from\": Source path (relative to repo root)
    // - \"to\": Absolute destination path on target system
    \"mouve\": [
        {
            \"from\": \"target/release/myapp\",  // Built binary
            \"to\": \"/var/www/api.myapp/\"  // Production Directory location
    }
    ],

    // REPOSITORY CONFIGURATION
    // Git repository URL for version control integration
    // Supports both HTTPS and SSH formats
    \"repo\": \"https://github.com/MyUser/myapp.git\"
    ";

/// The boilerplate for a new descriptor file.
pub fn config_example() -> (r: String)
    ensures
        r@ == CONFIG_EXAMPLE@,
{
    String::from_str(CONFIG_EXAMPLE)
}

} // verus!
