//! Where the coordinator uploads dataset files in the shared object store:
//! key `{namespace}/{filename}`, e.g. `crm/customers.csv`.

use vstd::prelude::*;
use crate::coordinator::config::{DatasetConfig, config_name};

verus! {

/// What `Path::file_name` yields for a path, as text (`None` also where the
/// name is not valid Unicode).
pub uninterp spec fn path_file_name(path: Seq<char>) -> Option<Seq<char>>;

/// `std::path::Path::file_name` of a path, converted to a string.
#[verifier::external_body]
fn file_name(path: &str) -> (r: Option<String>)
    ensures
        match r {
            Some(n) => path_file_name(path@) == Some(n@),
            None => path_file_name(path@) is None,
        },
{
    std::path::Path::new(path).file_name().and_then(|n| n.to_str()).map(|n| n.to_string())
}

/// What happens to one dataset at upload time.
#[derive(Debug, Clone)]
pub enum UploadStep {
    /// Upload the local file to `key`.
    Upload { dataset: String, local_path: String, key: String },
    /// Not a file dataset: nothing to upload.
    Skip { dataset: String },
}

/// The object key of a file: `{namespace}/{file name}`, the dataset's name
/// standing in for a path without a file name.
pub open spec fn object_key(namespace: Seq<char>, path: Seq<char>, name: Seq<char>) -> Seq<char> {
    namespace + seq!['/'] + match path_file_name(path) {
        Some(f) => f,
        None => name,
    }
}

/// The upload step of a dataset: CSV and Parquet files are uploaded, other
/// datasets skipped.
pub open spec fn step_matches(d: DatasetConfig, s: UploadStep) -> bool {
    match d {
        DatasetConfig::Csv { name, namespace, path, .. } => s matches UploadStep::Upload { dataset, local_path, key }
            && dataset@ == name@ && local_path@ == path@ && key@ == object_key(namespace@, path@, name@),
        DatasetConfig::Parquet { name, namespace, path, .. } => s matches UploadStep::Upload { dataset, local_path, key }
            && dataset@ == name@ && local_path@ == path@ && key@ == object_key(namespace@, path@, name@),
        _ => s matches UploadStep::Skip { dataset } && dataset@ == config_name(d)@,
    }
}

fn upload_step(name: &String, namespace: &String, path: &String) -> (r: UploadStep)
    ensures
        r matches UploadStep::Upload { dataset, local_path, key } && dataset@ == name@ && local_path@ == path@
            && key@ == object_key(namespace@, path@, name@),
{
    let mut key = namespace.clone();
    key.append("/");
    match file_name(path.as_str()) {
        Some(f) => key.append(f.as_str()),
        None => key.append(name.as_str()),
    }
    proof {
        reveal_strlit("/");
    }
    assert(key@ =~= object_key(namespace@, path@, name@));
    UploadStep::Upload { dataset: name.clone(), local_path: path.clone(), key }
}

/// The upload step of every configured dataset, in order.
pub fn upload_plan(datasets: &Vec<DatasetConfig>) -> (r: Vec<UploadStep>)
    ensures
        r@.len() == datasets@.len(),
        forall|i: int| 0 <= i < r@.len() ==> step_matches(datasets@[i], #[trigger] r@[i]),
{
    let mut out: Vec<UploadStep> = Vec::new();
    let n = datasets.len();
    let mut i: usize = 0;
    while i < n
        invariant
            n == datasets@.len(),
            i <= n,
            out@.len() == i,
            forall|k: int| 0 <= k < i ==> step_matches(datasets@[k], #[trigger] out@[k]),
        decreases n - i,
    {
        let step = match &datasets[i] {
            DatasetConfig::Csv { name, namespace, path, .. } => upload_step(name, namespace, path),
            DatasetConfig::Parquet { name, namespace, path, .. } => upload_step(name, namespace, path),
            other => UploadStep::Skip { dataset: other.name().to_string() },
        };
        proof {
            broadcast use vstd::string::group_string_axioms;
        }
        out.push(step);
        i += 1;
    }
    out
}

} // verus!
