use vstd::prelude::*;

verus! {

/// Parsed command line: one upload command.
#[derive(Debug)]
pub struct Cli {
    pub command: Commands,
}

/// An upload request given directly on the command line, with every
/// parameter its provider needs.
#[derive(Debug)]
pub enum Commands {
    AWS { region: String, bucket_name: String, path_to_file: String, key: String },
    Dropbox { access_token: String, path_to_file: String },
    GoogleDrive { access_token: String, path_to_file: String },
}

/// A cloud storage destination.
#[derive(Debug, Clone, Copy, PartialEq, Eq, Structural)]
pub enum Provider {
    AWS,
    Dropbox,
    GoogleDrive,
}

#[derive(Debug, Default)]
pub struct AWS_Config {
    pub region: String,
    pub bucket_name: String,
    pub path_to_file: String,
    pub key: String,
}

#[derive(Debug, Default)]
pub struct Dropbox_Config {
    pub access_token: String,
    pub path_to_file: String,
    pub key: String,
}

#[derive(Debug, Default)]
pub struct GoogleDrive_Config {
    pub access_token: String,
    pub path_to_file: String,
}

/// The labels of the fields a provider needs, in prompt order.
pub open spec fn catalog(p: Provider) -> Seq<Seq<char>> {
    match p {
        Provider::AWS => seq!["Region"@, "Bucket Name"@, "Path to File"@, "Key"@],
        Provider::GoogleDrive => seq!["Access Token"@, "Path to File"@],
        Provider::Dropbox => seq!["Access Token"@, "Path to File"@, "Key"@],
    }
}

/// The providers offered when a session starts, in display order.
pub open spec fn default_provider_list() -> Seq<Provider> {
    seq![Provider::AWS, Provider::GoogleDrive, Provider::Dropbox]
}

pub fn default_providers() -> (r: Vec<Provider>)
    ensures
        r@ == default_provider_list(),
{
    let r = vec![Provider::AWS, Provider::GoogleDrive, Provider::Dropbox];
    assert(r@ =~= default_provider_list());
    r
}

/// The field labels of `p`, in the catalog's order.
pub fn field_labels(p: Provider) -> (r: Vec<String>)
    ensures
        r@.len() == catalog(p).len(),
        forall|i: int| 0 <= i < r@.len() ==> #[trigger] r@[i]@ == catalog(p)[i],
{
    let mut r: Vec<String> = Vec::new();
    match p {
        Provider::AWS => {
            r.push(String::from_str("Region"));
            r.push(String::from_str("Bucket Name"));
            r.push(String::from_str("Path to File"));
            r.push(String::from_str("Key"));
        },
        Provider::GoogleDrive => {
            r.push(String::from_str("Access Token"));
            r.push(String::from_str("Path to File"));
        },
        Provider::Dropbox => {
            r.push(String::from_str("Access Token"));
            r.push(String::from_str("Path to File"));
            r.push(String::from_str("Key"));
        },
    }
    r
}

/// What `upload_command` builds from a provider and the values entered for
/// its catalog fields, taken by position.
pub open spec fn command_matches(c: Commands, p: Provider, values: Seq<Seq<char>>) -> bool {
    match c {
        Commands::AWS { region, bucket_name, path_to_file, key } => p == Provider::AWS
            && region@ == values[0] && bucket_name@ == values[1] && path_to_file@ == values[2]
            && key@ == values[3],
        Commands::Dropbox { access_token, path_to_file } => p == Provider::Dropbox
            && access_token@ == values[0] && path_to_file@ == values[1],
        Commands::GoogleDrive { access_token, path_to_file } => p == Provider::GoogleDrive
            && access_token@ == values[0] && path_to_file@ == values[1],
    }
}

/// Maps the fields of a completed form positionally onto the parameters of
/// the provider's upload. Returns `None` when the number of fields is not the
/// number the provider's catalog lists.
pub fn upload_command(p: Provider, fields: &Vec<(String, String)>) -> (r: Option<Commands>)
    ensures
        r is None <==> fields@.len() != catalog(p).len(),
        r matches Some(c) ==> command_matches(
            c,
            p,
            fields@.map_values(|f: (String, String)| f.1@),
        ),
{
    if fields.len() != field_count(p) {
        return None;
    }
    let c = match p {
        Provider::AWS => Commands::AWS {
            region: fields[0].1.clone(),
            bucket_name: fields[1].1.clone(),
            path_to_file: fields[2].1.clone(),
            key: fields[3].1.clone(),
        },
        Provider::Dropbox => Commands::Dropbox {
            access_token: fields[0].1.clone(),
            path_to_file: fields[1].1.clone(),
        },
        Provider::GoogleDrive => Commands::GoogleDrive {
            access_token: fields[0].1.clone(),
            path_to_file: fields[1].1.clone(),
        },
    };
    Some(c)
}

/// The number of fields `p` needs.
pub fn field_count(p: Provider) -> (r: usize)
    ensures
        r == catalog(p).len(),
{
    match p {
        Provider::AWS => 4,
        Provider::GoogleDrive => 2,
        Provider::Dropbox => 3,
    }
}

} // verus!
