use vstd::prelude::*;

use crate::config::Config;
use crate::text::{split_char, split_on, trim, trimmed};

verus! {

/// One action of the shutdown sequence.
#[derive(Clone, Copy, Debug, PartialEq, Eq, Structural)]
pub enum ShutdownStep {
    /// Schedule the machine's shutdown after this many minutes.
    Schedule { delay_minutes: u32 },
    /// Stop every running container.
    StopContainers,
    /// Stop the configured service at this position of the service list.
    StopService { index: usize },
    /// Withdraw the exported file system shares.
    UnexportShares,
    /// Flush the storage caches.
    SyncCaches,
}

/// The shutdown sequence, in order: schedule the shutdown, stop the containers
/// if asked, stop each of the `service_count` services, withdraw the shares if
/// asked, and sync.
pub open spec fn plan_of(
    delay_minutes: u32,
    docker_stop: bool,
    unexport_nfs: bool,
    service_count: nat,
) -> Seq<ShutdownStep> {
    seq![ShutdownStep::Schedule { delay_minutes }] + (if docker_stop {
        seq![ShutdownStep::StopContainers]
    } else {
        Seq::empty()
    }) + Seq::new(service_count, |i: int| ShutdownStep::StopService { index: i as usize }) + (
    if unexport_nfs {
        seq![ShutdownStep::UnexportShares]
    } else {
        Seq::empty()
    }) + seq![ShutdownStep::SyncCaches]
}

/// `p` without one trailing carriage return.
pub open spec fn strip_cr(p: Seq<char>) -> Seq<char> {
    if p.len() > 0 && p.last() == '\r' {
        p.drop_last()
    } else {
        p
    }
}

/// The lines of a container listing, one container id each, after surrounding
/// white space is removed; none where nothing is left.
pub open spec fn container_ids_of(listing: Seq<char>) -> Seq<Seq<char>> {
    let t = trimmed(listing);
    if t.len() == 0 {
        Seq::empty()
    } else {
        split_on(t, '\n').map_values(|p: Seq<char>| strip_cr(p))
    }
}

/// The steps of the shutdown sequence for `config`.
pub fn shutdown_plan(config: &Config) -> (r: Vec<ShutdownStep>)
    ensures
        r@ == plan_of(
            config.shutdown.delay_minutes,
            config.shutdown.docker_stop,
            config.shutdown.unexport_nfs,
            config.services@.len(),
        ),
{
    let mut steps: Vec<ShutdownStep> = Vec::new();
    steps.push(ShutdownStep::Schedule { delay_minutes: config.shutdown.delay_minutes });
    if config.shutdown.docker_stop {
        steps.push(ShutdownStep::StopContainers);
    }
    let ghost head = steps@;
    let n = config.services.len();
    for i in 0..n
        invariant
            n == config.services@.len(),
            steps@ == head + Seq::new(i as nat, |k: int| ShutdownStep::StopService { index: k as usize }),
    {
        steps.push(ShutdownStep::StopService { index: i });
        proof {
            assert(head + Seq::new((i + 1) as nat, |k: int| ShutdownStep::StopService { index: k as usize })
                =~= (head + Seq::new(i as nat, |k: int| ShutdownStep::StopService { index: k as usize })).push(
                ShutdownStep::StopService { index: i },
            ));
        }
    }
    if config.shutdown.unexport_nfs {
        steps.push(ShutdownStep::UnexportShares);
    }
    steps.push(ShutdownStep::SyncCaches);
    proof {
        assert(steps@ =~= plan_of(
            config.shutdown.delay_minutes,
            config.shutdown.docker_stop,
            config.shutdown.unexport_nfs,
            config.services@.len(),
        ));
    }
    steps
}

/// The ids of the running containers, read from the output of a listing that
/// prints one id per line.
pub fn container_ids(listing: &str) -> (r: Vec<String>)
    ensures
        r@.map_values(|s: String| s@) == container_ids_of(listing@),
{
    let t = trim(listing);
    if t.unicode_len() == 0 {
        let r: Vec<String> = Vec::new();
        proof {
            assert(r@.map_values(|s: String| s@) =~= Seq::<Seq<char>>::empty());
        }
        return r;
    }
    let lines = split_char(t, '\n');
    let ghost pieces = split_on(t@, '\n');
    let mut ids: Vec<String> = Vec::new();
    let n = lines.len();
    for i in 0..n
        invariant
            n == lines@.len(),
            pieces == lines@.map_values(|s: String| s@),
            ids@.len() == i,
            forall|k: int| 0 <= k < i ==> (#[trigger] ids@[k])@ == strip_cr(pieces[k]),
    {
        let line: &str = lines[i].as_str();
        let m = line.unicode_len();
        let id: String = if m > 0 && line.get_char(m - 1) == '\r' {
            line.substring_char(0, m - 1).to_owned()
        } else {
            line.to_owned()
        };
        proof {
            assert(pieces[i as int] == line@);
            if m > 0 && line@[m - 1] == '\r' {
                assert(line@.subrange(0, m - 1) =~= line@.drop_last());
            }
        }
        ids.push(id);
    }
    proof {
        assert(ids@.map_values(|s: String| s@) =~= pieces.map_values(|p: Seq<char>| strip_cr(p)));
    }
    ids
}

/// At most the first twelve characters of a container id, the short form that
/// the container tools print.
pub fn short_container_id(id: &str) -> (r: &str)
    ensures
        r@ == id@.take(if id@.len() < 12 { id@.len() as int } else { 12 }),
{
    let n = id.unicode_len();
    let end: usize = if n < 12 { n } else { 12 };
    id.substring_char(0, end)
}

} // verus!
