use vstd::prelude::*;
use crate::config::{Config, DEFAULT_LIMIT, default_site, with_key};
use crate::error::Error;
use crate::session::{Action, Event, Request, Session, next, started};

verus! {

/// The session that `Session::new` starts for `request`, with the
/// configuration kept in `dir`, the file path `file` and the fresh record `fresh`.
pub open spec fn fresh_session(request: Request, dir: String, file: String, fresh: Config) -> Session {
    Session::MakingDir { request, dir, file, fresh }
}

/// A load that finds no file it can open writes the default record into
/// the file and returns that same record.
pub proof fn lemma_load_creates_default(dir: String, file: String, fresh: Config)
    requires
        started(Request::Load, dir, fresh_session(Request::Load, dir, file, fresh)),
    ensures
        ({
            let s1 = next(fresh_session(Request::Load, dir, file, fresh), Event::DirCreated);
            let s2 = next(s1.0, Event::Unopenable);
            let s3 = next(s2.0, Event::Written);
            &&& s1.1 == Action::Read(file)
            &&& s2.1 == Action::Write(file, fresh)
            &&& s3.1 == Action::Finish(Ok(fresh))
            &&& fresh.api_key is None
            &&& fresh.limit == DEFAULT_LIMIT
            &&& fresh.site@ == default_site()
        }),
{
}

/// A load of a file that holds a record returns that record and asks for
/// no write, so two loads in a row return equal records and leave the file
/// as it was.
pub proof fn lemma_loads_are_idempotent(
    dir: String,
    file: String,
    fresh1: Config,
    fresh2: Config,
    c: Config,
)
    requires
        started(Request::Load, dir, fresh_session(Request::Load, dir, file, fresh1)),
        started(Request::Load, dir, fresh_session(Request::Load, dir, file, fresh2)),
    ensures
        ({
            let s1 = next(fresh_session(Request::Load, dir, file, fresh1), Event::DirCreated);
            let s2 = next(s1.0, Event::Parsed(c));
            let t1 = next(fresh_session(Request::Load, dir, file, fresh2), Event::DirCreated);
            let t2 = next(t1.0, Event::Parsed(c));
            &&& s1.1 == Action::Read(file)
            &&& s2.1 == Action::Finish(Ok(c))
            &&& t1.1 == Action::Read(file)
            &&& t2.1 == Action::Finish(Ok(c))
            &&& s2.1 == t2.1
        }),
{
}

/// An update of a file that holds `c` writes `c` with the new key and the
/// limit and site of `c`, and a later load returns that record.
pub proof fn lemma_update_keeps_other_fields(
    dir: String,
    file: String,
    fresh1: Config,
    fresh2: Config,
    c: Config,
    key: String,
)
    requires
        started(Request::SetKey(key), dir, fresh_session(Request::SetKey(key), dir, file, fresh1)),
        started(Request::Load, dir, fresh_session(Request::Load, dir, file, fresh2)),
    ensures
        ({
            let w = with_key(c, key);
            let s1 = next(fresh_session(Request::SetKey(key), dir, file, fresh1), Event::DirCreated);
            let s2 = next(s1.0, Event::Parsed(c));
            let s3 = next(s2.0, Event::Written);
            let t1 = next(fresh_session(Request::Load, dir, file, fresh2), Event::DirCreated);
            let t2 = next(t1.0, Event::Parsed(w));
            &&& s2.1 == Action::Write(file, w)
            &&& s3.1 == Action::Finish(Ok(w))
            &&& t2.1 == Action::Finish(Ok(w))
            &&& w.api_key == Some(key)
            &&& w.limit == c.limit
            &&& w.site == c.site
        }),
{
}

/// An update where no file can be opened first writes the default record,
/// then that record with the new key, default limit and default site.
pub proof fn lemma_update_of_absent_file(dir: String, file: String, fresh: Config, key: String)
    requires
        started(Request::SetKey(key), dir, fresh_session(Request::SetKey(key), dir, file, fresh)),
    ensures
        ({
            let w = with_key(fresh, key);
            let s1 = next(fresh_session(Request::SetKey(key), dir, file, fresh), Event::DirCreated);
            let s2 = next(s1.0, Event::Unopenable);
            let s3 = next(s2.0, Event::Written);
            let s4 = next(s3.0, Event::Written);
            &&& s2.1 == Action::Write(file, fresh)
            &&& s3.1 == Action::Write(file, w)
            &&& s4.1 == Action::Finish(Ok(w))
            &&& w.api_key == Some(key)
            &&& w.limit == DEFAULT_LIMIT
            &&& w.site@ == default_site()
        }),
{
}

/// Two updates in a row leave the second key alone in the record: the
/// second replaces the first, and the limit and site are those of the
/// record that the first update read.
pub proof fn lemma_second_update_replaces_first(
    dir: String,
    file: String,
    fresh1: Config,
    fresh2: Config,
    c: Config,
    key1: String,
    key2: String,
)
    requires
        started(Request::SetKey(key1), dir, fresh_session(Request::SetKey(key1), dir, file, fresh1)),
        started(Request::SetKey(key2), dir, fresh_session(Request::SetKey(key2), dir, file, fresh2)),
    ensures
        ({
            let w1 = with_key(c, key1);
            let w2 = with_key(w1, key2);
            let s2 = next(
                next(fresh_session(Request::SetKey(key1), dir, file, fresh1), Event::DirCreated).0,
                Event::Parsed(c),
            );
            let t2 = next(
                next(fresh_session(Request::SetKey(key2), dir, file, fresh2), Event::DirCreated).0,
                Event::Parsed(w1),
            );
            &&& s2.1 == Action::Write(file, w1)
            &&& t2.1 == Action::Write(file, w2)
            &&& w2.api_key == Some(key2)
            &&& w2.limit == c.limit
            &&& w2.site == c.site
        }),
{
}

/// A file that opens but holds no record ends a load or an update with
/// `MalformedFile` naming the file, and no write is asked for.
pub proof fn lemma_malformed_file_is_reported(
    request: Request,
    dir: String,
    file: String,
    fresh: Config,
)
    requires
        started(request, dir, fresh_session(request, dir, file, fresh)),
    ensures
        ({
            let s1 = next(fresh_session(request, dir, file, fresh), Event::DirCreated);
            let s2 = next(s1.0, Event::Malformed);
            &&& s1.1 == Action::Read(file)
            &&& s2.1 == Action::Finish(Err(Error::MalformedFile(file)))
            &&& s2.0 == (Session::Done { result: Err(Error::MalformedFile(file)) })
        }),
{
}

} // verus!
