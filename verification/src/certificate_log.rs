//! The record that is appended to the log of an identity after its certificate was saved.
use vstd::prelude::*;

use crate::target::{wf_name_len, IdentityName};

verus! {

/// Why no record was written.
#[derive(Debug, PartialEq, Eq)]
pub enum WriteCertificateLogError {
    LoadIdentity { name: IdentityName },
    MissingLeaf { name: IdentityName },
    Chain { name: IdentityName },
    BuildRecord { name: IdentityName },
    Format { name: IdentityName },
    CreateDirectory { path: String },
    Open { path: String },
    Write { path: String },
}

impl WriteCertificateLogError {
    pub open spec fn wf(self) -> bool {
        match self {
            WriteCertificateLogError::LoadIdentity { name } => name.wf(),
            WriteCertificateLogError::MissingLeaf { name } => name.wf(),
            WriteCertificateLogError::Chain { name } => name.wf(),
            WriteCertificateLogError::BuildRecord { name } => name.wf(),
            WriteCertificateLogError::Format { name } => name.wf(),
            _ => true,
        }
    }

    pub open spec fn words(self) -> Seq<char> {
        match self {
            WriteCertificateLogError::LoadIdentity {
                name,
            } => "failed to load committed identity "@ + name.partial(),
            WriteCertificateLogError::MissingLeaf { name } => "committed identity "@
                + name.partial() + " has no leaf certificate"@,
            WriteCertificateLogError::Chain {
                name,
            } => "failed to extract DHTTP certificate chain key from committed identity "@
                + name.partial(),
            WriteCertificateLogError::BuildRecord {
                name,
            } => "failed to construct certificate log record for "@ + name.partial(),
            WriteCertificateLogError::Format {
                name,
            } => "failed to format certificate log record for "@ + name.partial(),
            WriteCertificateLogError::CreateDirectory {
                path,
            } => "failed to create certificate log directory "@ + path@,
            WriteCertificateLogError::Open { path } => "failed to open certificate log "@ + path@,
            WriteCertificateLogError::Write { path } => "failed to append certificate log "@
                + path@,
        }
    }

    pub fn to_text(&self) -> (r: String)
        requires
            self.wf(),
        ensures
            r@ == self.words(),
    {
        let mut r = match self {
            WriteCertificateLogError::LoadIdentity {
                ..
            } => "failed to load committed identity ".to_owned(),
            WriteCertificateLogError::MissingLeaf { .. } => "committed identity ".to_owned(),
            WriteCertificateLogError::Chain {
                ..
            } => "failed to extract DHTTP certificate chain key from committed identity ".to_owned(),
            WriteCertificateLogError::BuildRecord {
                ..
            } => "failed to construct certificate log record for ".to_owned(),
            WriteCertificateLogError::Format {
                ..
            } => "failed to format certificate log record for ".to_owned(),
            WriteCertificateLogError::CreateDirectory {
                ..
            } => "failed to create certificate log directory ".to_owned(),
            WriteCertificateLogError::Open { .. } => "failed to open certificate log ".to_owned(),
            WriteCertificateLogError::Write { .. } => "failed to append certificate log ".to_owned(),
        };
        match self {
            WriteCertificateLogError::LoadIdentity { name } => {
                proof {
                    wf_name_len(*name);
                }
                r.append(name.as_partial());
            },
            WriteCertificateLogError::MissingLeaf { name } => {
                proof {
                    wf_name_len(*name);
                }
                r.append(name.as_partial());
                r.append(" has no leaf certificate");
            },
            WriteCertificateLogError::Chain { name } => {
                proof {
                    wf_name_len(*name);
                }
                r.append(name.as_partial());
            },
            WriteCertificateLogError::BuildRecord { name } => {
                proof {
                    wf_name_len(*name);
                }
                r.append(name.as_partial());
            },
            WriteCertificateLogError::Format { name } => {
                proof {
                    wf_name_len(*name);
                }
                r.append(name.as_partial());
            },
            WriteCertificateLogError::CreateDirectory { path } => {
                r.append(path);
            },
            WriteCertificateLogError::Open { path } => {
                r.append(path);
            },
            WriteCertificateLogError::Write { path } => {
                r.append(path);
            },
        }
        r
    }
}

/// A step on the way to the record.
#[derive(Debug, Clone, Copy, PartialEq, Eq, Structural)]
pub enum LogStep {
    LoadIdentity,
    /// Takes the first certificate of the identity.
    TakeLeaf,
    ExtractChain,
    BuildRecord,
    Format,
    CreateDirectory,
    Open,
    Append,
    Written,
}

/// The step after one that succeeded.
pub open spec fn next_step(step: LogStep) -> LogStep {
    match step {
        LogStep::LoadIdentity => LogStep::TakeLeaf,
        LogStep::TakeLeaf => LogStep::ExtractChain,
        LogStep::ExtractChain => LogStep::BuildRecord,
        LogStep::BuildRecord => LogStep::Format,
        LogStep::Format => LogStep::CreateDirectory,
        LogStep::CreateDirectory => LogStep::Open,
        LogStep::Open => LogStep::Append,
        LogStep::Append => LogStep::Written,
        LogStep::Written => LogStep::Written,
    }
}

/// What a step that failed is reported as.
pub open spec fn step_error(
    step: LogStep,
    name: IdentityName,
    directory: String,
    path: String,
) -> WriteCertificateLogError {
    match step {
        LogStep::LoadIdentity => WriteCertificateLogError::LoadIdentity { name },
        LogStep::TakeLeaf => WriteCertificateLogError::MissingLeaf { name },
        LogStep::ExtractChain => WriteCertificateLogError::Chain { name },
        LogStep::BuildRecord => WriteCertificateLogError::BuildRecord { name },
        LogStep::Format => WriteCertificateLogError::Format { name },
        LogStep::CreateDirectory => WriteCertificateLogError::CreateDirectory { path: directory },
        LogStep::Open => WriteCertificateLogError::Open { path },
        _ => WriteCertificateLogError::Write { path },
    }
}

/// What follows on a step: the next one, or the report of its failure.
pub fn write_after_commit(
    step: LogStep,
    succeeded: bool,
    name: &IdentityName,
    directory: &String,
    path: &String,
) -> (r: Result<LogStep, WriteCertificateLogError>)
    requires
        step != LogStep::Written,
    ensures
        r == (if succeeded {
            Ok::<LogStep, WriteCertificateLogError>(next_step(step))
        } else {
            Err(step_error(step, *name, *directory, *path))
        }),
{
    if succeeded {
        return Ok(
            match step {
                LogStep::LoadIdentity => LogStep::TakeLeaf,
                LogStep::TakeLeaf => LogStep::ExtractChain,
                LogStep::ExtractChain => LogStep::BuildRecord,
                LogStep::BuildRecord => LogStep::Format,
                LogStep::Format => LogStep::CreateDirectory,
                LogStep::CreateDirectory => LogStep::Open,
                LogStep::Open => LogStep::Append,
                LogStep::Append => LogStep::Written,
                LogStep::Written => LogStep::Written,
            },
        );
    }
    Err(
        match step {
            LogStep::LoadIdentity => WriteCertificateLogError::LoadIdentity { name: name.copy() },
            LogStep::TakeLeaf => WriteCertificateLogError::MissingLeaf { name: name.copy() },
            LogStep::ExtractChain => WriteCertificateLogError::Chain { name: name.copy() },
            LogStep::BuildRecord => WriteCertificateLogError::BuildRecord { name: name.copy() },
            LogStep::Format => WriteCertificateLogError::Format { name: name.copy() },
            LogStep::CreateDirectory => WriteCertificateLogError::CreateDirectory {
                path: directory.clone(),
            },
            LogStep::Open => WriteCertificateLogError::Open { path: path.clone() },
            LogStep::Append => WriteCertificateLogError::Write { path: path.clone() },
            LogStep::Written => WriteCertificateLogError::Write { path: path.clone() },
        },
    )
}

/// The log is written step by step, and each failure is told by the step at which it came.
pub proof fn logs_are_written_step_by_step(
    step: LogStep,
    name: IdentityName,
    directory: String,
    path: String,
)
    ensures
        next_step(LogStep::LoadIdentity) == LogStep::TakeLeaf,
        next_step(LogStep::TakeLeaf) == LogStep::ExtractChain,
        next_step(LogStep::ExtractChain) == LogStep::BuildRecord,
        next_step(LogStep::BuildRecord) == LogStep::Format,
        next_step(LogStep::Format) == LogStep::CreateDirectory,
        next_step(LogStep::CreateDirectory) == LogStep::Open,
        next_step(LogStep::Open) == LogStep::Append,
        next_step(step) == LogStep::Written <==> step == LogStep::Append || step
            == LogStep::Written,
        ({
            let error = step_error(step, name, directory, path);
            &&& (step == LogStep::LoadIdentity <==> error == (
            WriteCertificateLogError::LoadIdentity { name }))
            &&& (step == LogStep::TakeLeaf <==> error == (WriteCertificateLogError::MissingLeaf {
                name,
            }))
            &&& (step == LogStep::ExtractChain <==> error == (WriteCertificateLogError::Chain {
                name,
            }))
            &&& (step == LogStep::BuildRecord <==> error == (
            WriteCertificateLogError::BuildRecord { name }))
            &&& (step == LogStep::Format <==> error == (WriteCertificateLogError::Format { name }))
            &&& (step == LogStep::CreateDirectory <==> error == (
            WriteCertificateLogError::CreateDirectory { path: directory }))
            &&& (step == LogStep::Open <==> error == (WriteCertificateLogError::Open { path }))
            &&& (step == LogStep::Append || step == LogStep::Written <==> error == (
            WriteCertificateLogError::Write { path }))
        }),
{
}

} // verus!
