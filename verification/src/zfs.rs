//! Interpretation of the `zfs` volume-management utility's output: the
//! lock state of a dataset, queried with
//! `zfs get -H -o value keystatus -- <dataset>`, and the outcome of an
//! unlock attempt made with `zfs load-key -L file:///proc/self/fd/0 --
//! <dataset>`, which reads the key from its standard input. Spawning the
//! utility and collecting its output is plain I/O and stays outside the
//! library; the functions here take the captured output as bytes and are
//! verified to translate it exactly.

use vstd::prelude::*;

use crate::bytes::{append_bytes, copy_range, range_eq, trim, trim_range};

verus! {

/// Whether the decryption key for a dataset is currently loaded.
///
/// A dataset that reports no encryption at all is not a lock state; it is
/// the distinct error [`KeystatusError::NotEncrypted`].
#[derive(Debug, PartialEq, Eq, Structural, Clone, Copy)]
pub enum KeyStatus {
    Available,
    Unavailable,
}

/// Why a lock-state query failed.
#[derive(Debug, PartialEq, Eq)]
pub enum KeystatusError {
    /// The utility could not be launched at all.
    Spawn,
    /// The utility ran and exited non-zero; its standard-error output.
    Backend { stderr: Vec<u8> },
    /// The dataset reports that it is not encrypted.
    NotEncrypted,
    /// The utility printed a value that is no known lock state.
    Unexpected { value: Vec<u8> },
}

/// Why an unlock attempt failed.
#[derive(Debug, PartialEq, Eq)]
pub enum LoadKeyError {
    /// The utility could not be launched at all.
    Spawn,
    /// Writing the key to the utility's standard input failed; the text of
    /// the underlying I/O error.
    Pipe { detail: Vec<u8> },
    /// The utility ran and exited non-zero; its standard-error output.
    Backend { stderr: Vec<u8> },
}

/// The keystatus value `available`.
pub open spec fn available_text() -> Seq<u8> {
    seq![97u8, 118u8, 97u8, 105u8, 108u8, 97u8, 98u8, 108u8, 101u8]
}

/// The keystatus value `unavailable`.
pub open spec fn unavailable_text() -> Seq<u8> {
    seq![117u8, 110u8, 97u8, 118u8, 97u8, 105u8, 108u8, 97u8, 98u8, 108u8, 101u8]
}

/// The keystatus value `-`, printed for a dataset with no encryption.
pub open spec fn dash_text() -> Seq<u8> {
    seq![45u8]
}

/// The message `failed to spawn zfs command`.
pub open spec fn spawn_error_text() -> Seq<u8> {
    seq![
        102u8, 97u8, 105u8, 108u8, 101u8, 100u8, 32u8, 116u8, 111u8, 32u8, 115u8, 112u8, 97u8,
        119u8, 110u8, 32u8, 122u8, 102u8, 115u8, 32u8, 99u8, 111u8, 109u8, 109u8, 97u8, 110u8,
        100u8,
    ]
}

/// The message prefix `zfs load-key failed: `.
pub open spec fn load_key_failed_text() -> Seq<u8> {
    seq![
        122u8, 102u8, 115u8, 32u8, 108u8, 111u8, 97u8, 100u8, 45u8, 107u8, 101u8, 121u8, 32u8,
        102u8, 97u8, 105u8, 108u8, 101u8, 100u8, 58u8, 32u8,
    ]
}

/// The message prefix `failed to get keystatus: `.
pub open spec fn keystatus_failed_text() -> Seq<u8> {
    seq![
        102u8, 97u8, 105u8, 108u8, 101u8, 100u8, 32u8, 116u8, 111u8, 32u8, 103u8, 101u8, 116u8,
        32u8, 107u8, 101u8, 121u8, 115u8, 116u8, 97u8, 116u8, 117u8, 115u8, 58u8, 32u8,
    ]
}

/// The message `dataset is not encrypted`.
pub open spec fn not_encrypted_text() -> Seq<u8> {
    seq![
        100u8, 97u8, 116u8, 97u8, 115u8, 101u8, 116u8, 32u8, 105u8, 115u8, 32u8, 110u8, 111u8,
        116u8, 32u8, 101u8, 110u8, 99u8, 114u8, 121u8, 112u8, 116u8, 101u8, 100u8,
    ]
}

/// The message prefix `unexpected value for keystatus: `.
pub open spec fn unexpected_prefix_text() -> Seq<u8> {
    seq![
        117u8, 110u8, 101u8, 120u8, 112u8, 101u8, 99u8, 116u8, 101u8, 100u8, 32u8, 118u8, 97u8,
        108u8, 117u8, 101u8, 32u8, 102u8, 111u8, 114u8, 32u8, 107u8, 101u8, 121u8, 115u8, 116u8,
        97u8, 116u8, 117u8, 115u8, 58u8, 32u8,
    ]
}

impl KeystatusError {
    /// The diagnostic text of the error, as the bootstrap reports it.
    pub open spec fn message_spec(&self) -> Seq<u8> {
        match self {
            KeystatusError::Spawn => spawn_error_text(),
            KeystatusError::Backend { stderr } => keystatus_failed_text() + stderr@,
            KeystatusError::NotEncrypted => not_encrypted_text(),
            KeystatusError::Unexpected { value } => unexpected_prefix_text() + value@,
        }
    }

    /// Renders the diagnostic text of the error.
    pub fn message(&self) -> (r: Vec<u8>)
        ensures
            r@ == self.message_spec(),
    {
        match self {
            KeystatusError::Spawn => spawn_error_message(),
            KeystatusError::Backend { stderr } => {
                let mut m: Vec<u8> = vec![
                    102u8, 97u8, 105u8, 108u8, 101u8, 100u8, 32u8, 116u8, 111u8, 32u8, 103u8,
                    101u8, 116u8, 32u8, 107u8, 101u8, 121u8, 115u8, 116u8, 97u8, 116u8, 117u8,
                    115u8, 58u8, 32u8,
                ];
                assert(m@ =~= keystatus_failed_text());
                append_bytes(&mut m, stderr);
                m
            },
            KeystatusError::NotEncrypted => {
                let m: Vec<u8> = vec![
                    100u8, 97u8, 116u8, 97u8, 115u8, 101u8, 116u8, 32u8, 105u8, 115u8, 32u8,
                    110u8, 111u8, 116u8, 32u8, 101u8, 110u8, 99u8, 114u8, 121u8, 112u8, 116u8,
                    101u8, 100u8,
                ];
                assert(m@ =~= not_encrypted_text());
                m
            },
            KeystatusError::Unexpected { value } => {
                let mut m: Vec<u8> = vec![
                    117u8, 110u8, 101u8, 120u8, 112u8, 101u8, 99u8, 116u8, 101u8, 100u8, 32u8,
                    118u8, 97u8, 108u8, 117u8, 101u8, 32u8, 102u8, 111u8, 114u8, 32u8, 107u8,
                    101u8, 121u8, 115u8, 116u8, 97u8, 116u8, 117u8, 115u8, 58u8, 32u8,
                ];
                assert(m@ =~= unexpected_prefix_text());
                append_bytes(&mut m, value);
                m
            },
        }
    }
}

impl LoadKeyError {
    /// The diagnostic text of the error, as the HTTP layer reports it: the
    /// backend's standard-error text stands in the message unshortened.
    pub open spec fn message_spec(&self) -> Seq<u8> {
        match self {
            LoadKeyError::Spawn => spawn_error_text(),
            LoadKeyError::Pipe { detail } => detail@,
            LoadKeyError::Backend { stderr } => load_key_failed_text() + stderr@,
        }
    }

    /// Renders the diagnostic text of the error.
    pub fn message(&self) -> (r: Vec<u8>)
        ensures
            r@ == self.message_spec(),
    {
        match self {
            LoadKeyError::Spawn => spawn_error_message(),
            LoadKeyError::Pipe { detail } => {
                let m = copy_range(detail, 0, detail.len());
                assert(detail@.subrange(0, detail@.len() as int) =~= detail@);
                m
            },
            LoadKeyError::Backend { stderr } => {
                let mut m: Vec<u8> = vec![
                    122u8, 102u8, 115u8, 32u8, 108u8, 111u8, 97u8, 100u8, 45u8, 107u8, 101u8,
                    121u8, 32u8, 102u8, 97u8, 105u8, 108u8, 101u8, 100u8, 58u8, 32u8,
                ];
                assert(m@ =~= load_key_failed_text());
                append_bytes(&mut m, stderr);
                m
            },
        }
    }
}

/// The message `failed to spawn zfs command`, shared by both error kinds.
fn spawn_error_message() -> (r: Vec<u8>)
    ensures
        r@ == spawn_error_text(),
{
    let m: Vec<u8> = vec![
        102u8, 97u8, 105u8, 108u8, 101u8, 100u8, 32u8, 116u8, 111u8, 32u8, 115u8, 112u8, 97u8,
        119u8, 110u8, 32u8, 122u8, 102u8, 115u8, 32u8, 99u8, 111u8, 109u8, 109u8, 97u8, 110u8,
        100u8,
    ];
    assert(m@ =~= spawn_error_text());
    m
}

/// What `parse_keystatus_value` owes for a captured standard output: the
/// trimmed value decides the result, and nothing else does.
pub open spec fn keystatus_parse_ok(stdout: Seq<u8>, r: Result<KeyStatus, KeystatusError>) -> bool {
    &&& trim(stdout) == available_text() ==> (r matches Ok(s) && s == KeyStatus::Available)
    &&& trim(stdout) == unavailable_text() ==> (r matches Ok(s) && s == KeyStatus::Unavailable)
    &&& trim(stdout) == dash_text() ==> (r matches Err(e) && e is NotEncrypted)
    &&& (trim(stdout) != available_text() && trim(stdout) != unavailable_text() && trim(stdout)
        != dash_text()) ==> (r matches Err(e) && e matches KeystatusError::Unexpected { value }
        && value@ == trim(stdout))
}

/// Reads a lock state off the status query's standard output.
///
/// The output, trimmed of surrounding ASCII whitespace, must be one of the
/// two known lock states; `-` means the dataset is not encrypted, which is
/// an error of its own, and any other value is rejected as unexpected.
pub fn parse_keystatus_value(stdout: &Vec<u8>) -> (r: Result<KeyStatus, KeystatusError>)
    ensures
        keystatus_parse_ok(stdout@, r),
{
    let (lo, hi) = trim_range(stdout);
    let available: Vec<u8> = vec![97u8, 118u8, 97u8, 105u8, 108u8, 97u8, 98u8, 108u8, 101u8];
    assert(available@ =~= available_text());
    let unavailable: Vec<u8> = vec![
        117u8, 110u8, 97u8, 118u8, 97u8, 105u8, 108u8, 97u8, 98u8, 108u8, 101u8,
    ];
    assert(unavailable@ =~= unavailable_text());
    let dash: Vec<u8> = vec![45u8];
    assert(dash@ =~= dash_text());
    if range_eq(stdout, lo, hi, &available) {
        Ok(KeyStatus::Available)
    } else if range_eq(stdout, lo, hi, &unavailable) {
        Ok(KeyStatus::Unavailable)
    } else if range_eq(stdout, lo, hi, &dash) {
        Err(KeystatusError::NotEncrypted)
    } else {
        let value = copy_range(stdout, lo, hi);
        Err(KeystatusError::Unexpected { value })
    }
}

/// Translates one run of the status query: a non-zero exit carries the
/// standard-error text, a zero exit hands the standard output to
/// [`parse_keystatus_value`].
pub fn interpret_keystatus(exit_ok: bool, stdout: &Vec<u8>, stderr: &Vec<u8>) -> (r: Result<
    KeyStatus,
    KeystatusError,
>)
    ensures
        exit_ok ==> keystatus_parse_ok(stdout@, r),
        !exit_ok ==> (r matches Err(e) && e matches KeystatusError::Backend { stderr: s } && s@
            == stderr@),
{
    if exit_ok {
        parse_keystatus_value(stdout)
    } else {
        let s = copy_range(stderr, 0, stderr.len());
        assert(stderr@.subrange(0, stderr@.len() as int) =~= stderr@);
        Err(KeystatusError::Backend { stderr: s })
    }
}

/// Translates one run of the unlock command: exit code zero is success,
/// and a non-zero exit carries the standard-error text.
pub fn interpret_load_key(exit_ok: bool, stderr: &Vec<u8>) -> (r: Result<(), LoadKeyError>)
    ensures
        exit_ok <==> r is Ok,
        !exit_ok ==> (r matches Err(e) && e matches LoadKeyError::Backend { stderr: s } && s@
            == stderr@),
{
    if exit_ok {
        Ok(())
    } else {
        let s = copy_range(stderr, 0, stderr.len());
        assert(stderr@.subrange(0, stderr@.len() as int) =~= stderr@);
        Err(LoadKeyError::Backend { stderr: s })
    }
}

} // verus!
