use vstd::prelude::*;
use crate::config::{Config, set_api_key, with_key};
use crate::error::{Error, PermissionType};
use crate::location::{config_file_in, config_file_of};

verus! {

/// What the caller wants done with the configuration record.
#[derive(Clone, Debug)]
pub enum Request {
    /// Read the record, creating the file with a fresh record if it cannot be opened.
    Load,
    /// Read the record as `Load` does, set its key, and write it back.
    SetKey(String),
}

/// The outcome of the file system work that the last action asked for.
#[derive(Clone, Debug)]
pub enum Event {
    /// The directory exists now.
    DirCreated,
    /// The directory could not be created.
    DirRefused,
    /// The file could not be opened for reading.
    Unopenable,
    /// The file was opened and held this record.
    Parsed(Config),
    /// The file was opened but did not hold a record.
    Malformed,
    /// The file was created and the record written into it.
    Written,
    /// The file could not be created.
    CreateRefused,
    /// The record could not be written into the created file.
    WriteRefused,
}

/// The work that the caller is to do next.
#[derive(Debug)]
pub enum Action {
    /// Create this directory and any missing parents.
    CreateDir(String),
    /// Open this file and read a record from it.
    Read(String),
    /// Create or truncate this file and write the record into it.
    Write(String, Config),
    /// Stop: the operation ended with this result.
    Finish(Result<Config, Error>),
}

/// Where a load or an update of the configuration file stands.
#[derive(Debug)]
pub enum Session {
    /// Waiting for the directory `dir` to be created.
    MakingDir { request: Request, dir: String, file: String, fresh: Config },
    /// Waiting for the record in `file` to be read.
    Reading { request: Request, file: String, fresh: Config },
    /// Waiting for `record` to be written into `file`; with `then` holding a
    /// key, the record with that key is to be written next.
    Writing { file: String, record: Config, then: Option<String> },
    /// The operation ended with `result`.
    Done { result: Result<Config, Error> },
}

/// The session that ends with `result`, and the action that reports it.
pub open spec fn finish(result: Result<Config, Error>) -> (Session, Action) {
    (Session::Done { result }, Action::Finish(result))
}

/// The session that writes `record` into `file`, and the action that asks for it.
pub open spec fn write(file: String, record: Config, then: Option<String>) -> (Session, Action) {
    (Session::Writing { file, record, then }, Action::Write(file, record))
}

/// The session that follows `s` on the outcome `e`, and the action that it
/// asks for. An outcome that does not answer the pending action leaves the
/// session as it is and asks for that action again.
pub open spec fn next(s: Session, e: Event) -> (Session, Action) {
    match s {
        Session::MakingDir { request, dir, file, fresh } => match e {
            Event::DirCreated => (Session::Reading { request, file, fresh }, Action::Read(file)),
            Event::DirRefused => finish(Err(Error::Permissions(PermissionType::Create, dir))),
            _ => (s, Action::CreateDir(dir)),
        },
        Session::Reading { request, file, fresh } => match e {
            Event::Unopenable => match request {
                Request::Load => write(file, fresh, None),
                Request::SetKey(k) => write(file, fresh, Some(k)),
            },
            Event::Parsed(c) => match request {
                Request::Load => finish(Ok(c)),
                Request::SetKey(k) => write(file, with_key(c, k), None),
            },
            Event::Malformed => finish(Err(Error::MalformedFile(file))),
            _ => (s, Action::Read(file)),
        },
        Session::Writing { file, record, then } => match e {
            Event::Written => match then {
                None => finish(Ok(record)),
                Some(k) => write(file, with_key(record, k), None),
            },
            Event::CreateRefused => finish(Err(Error::Permissions(PermissionType::Create, file))),
            Event::WriteRefused => finish(Err(Error::Permissions(PermissionType::Write, file))),
            _ => (s, Action::Write(file, record)),
        },
        Session::Done { result } => (s, Action::Finish(result)),
    }
}

/// The session that serves `request` with the configuration kept in `dir`.
pub open spec fn started(request: Request, dir: String, s: Session) -> bool {
    match s {
        Session::MakingDir { request: q, dir: d, file, fresh } => {
            &&& q == request
            &&& d == dir
            &&& file@ == config_file_of(dir@)
            &&& fresh.is_default()
        },
        _ => false,
    }
}

fn copy_result(r: &Result<Config, Error>) -> (c: Result<Config, Error>)
    ensures
        c == *r,
{
    match r {
        Ok(cfg) => Ok(cfg.duplicate()),
        Err(e) => Err(e.duplicate()),
    }
}

fn finish_with(result: Result<Config, Error>) -> (r: (Session, Action))
    ensures
        r == finish(result),
{
    (Session::Done { result: copy_result(&result) }, Action::Finish(result))
}

fn write_with(file: String, record: Config, then: Option<String>) -> (r: (Session, Action))
    ensures
        r == write(file, record, then),
{
    let action = Action::Write(file.clone(), record.duplicate());
    (Session::Writing { file, record, then }, action)
}

impl Session {
    /// Starts serving `request` with the configuration kept in `dir`: the
    /// first action asks for `dir` to be created.
    pub fn new(request: Request, dir: String) -> (r: (Session, Action))
        ensures
            started(request, dir, r.0),
            r.1 == Action::CreateDir(dir),
    {
        let file = config_file_in(&dir);
        let fresh = Config::default();
        let action = Action::CreateDir(dir.clone());
        (Session::MakingDir { request, dir, file, fresh }, action)
    }

    /// The session that follows on the outcome `e` of the pending action,
    /// and the action that it asks for.
    pub fn step(self, e: Event) -> (r: (Session, Action))
        ensures
            r == next(self, e),
    {
        match self {
            Session::MakingDir { request, dir, file, fresh } => match e {
                Event::DirCreated => {
                    let action = Action::Read(file.clone());
                    (Session::Reading { request, file, fresh }, action)
                },
                Event::DirRefused => finish_with(
                    Err(Error::Permissions(PermissionType::Create, dir)),
                ),
                _ => {
                    let action = Action::CreateDir(dir.clone());
                    (Session::MakingDir { request, dir, file, fresh }, action)
                },
            },
            Session::Reading { request, file, fresh } => match e {
                Event::Unopenable => match request {
                    Request::Load => write_with(file, fresh, None),
                    Request::SetKey(k) => write_with(file, fresh, Some(k)),
                },
                Event::Parsed(c) => match request {
                    Request::Load => finish_with(Ok(c)),
                    Request::SetKey(k) => write_with(file, set_api_key(c, k), None),
                },
                Event::Malformed => finish_with(Err(Error::MalformedFile(file))),
                _ => {
                    let action = Action::Read(file.clone());
                    (Session::Reading { request, file, fresh }, action)
                },
            },
            Session::Writing { file, record, then } => match e {
                Event::Written => match then {
                    None => finish_with(Ok(record)),
                    Some(k) => write_with(file, set_api_key(record, k), None),
                },
                Event::CreateRefused => finish_with(
                    Err(Error::Permissions(PermissionType::Create, file)),
                ),
                Event::WriteRefused => finish_with(
                    Err(Error::Permissions(PermissionType::Write, file)),
                ),
                _ => {
                    let action = Action::Write(file.clone(), record.duplicate());
                    (Session::Writing { file, record, then }, action)
                },
            },
            Session::Done { result } => {
                let action = Action::Finish(copy_result(&result));
                (Session::Done { result }, action)
            },
        }
    }
}

} // verus!
