//! Where the records of containers are kept: one directory for each
//! container under `/var/run/rocker`, named by the container, with the
//! record in `config.json` and the captured output in `container.log`.

use crate::container::info::{valid_record, ContainerInfo, ContainerInfoView, ContainerStatus};
use crate::error::{RuntimeError, RuntimeErrorView};
use vstd::prelude::*;

verus! {

/// The store of the containers' records.
pub struct ContainerStore;

/// An entry of the store's directory: its name, and the record that was
/// read from it, if one could be read.
#[derive(Debug)]
pub struct StoreEntry {
    pub name: String,
    pub loaded: Option<ContainerInfo>,
}

impl View for StoreEntry {
    type V = (Seq<char>, Option<ContainerInfoView>);

    open spec fn view(&self) -> (Seq<char>, Option<ContainerInfoView>) {
        (
            self.name@,
            match self.loaded {
                Some(info) => Some(info@),
                None => None,
            },
        )
    }
}

/// The entries of a list, each by its view.
pub open spec fn entries_view(entries: Seq<StoreEntry>) -> Seq<
    (Seq<char>, Option<ContainerInfoView>),
> {
    Seq::new(entries.len(), |k: int| entries[k]@)
}

/// The records of a list, each by its view.
pub open spec fn records_view(records: Seq<ContainerInfo>) -> Seq<ContainerInfoView> {
    Seq::new(records.len(), |k: int| records[k]@)
}

/// The directory of the container `name`.
pub open spec fn container_dir_of(name: Seq<char>) -> Seq<char> {
    "/var/run/rocker/"@ + name + "/"@
}

/// The file that holds the record of the container `name`.
pub open spec fn config_path_of(name: Seq<char>) -> Seq<char> {
    container_dir_of(name) + "config.json"@
}

/// The file that holds the captured output of the container `name`.
pub open spec fn log_path_of(name: Seq<char>) -> Seq<char> {
    container_dir_of(name) + "container.log"@
}

/// Whether an entry of the store's directory names no container: `network`
/// is kept for the networks.
pub open spec fn reserved_name(name: Seq<char>) -> bool {
    name == "network"@
}

/// Whether an entry of the store's directory is listed: it is not reserved
/// and its record could be read.
pub open spec fn is_listed(entry: (Seq<char>, Option<ContainerInfoView>)) -> bool {
    !reserved_name(entry.0) && entry.1 is Some
}

/// The records of the entries that are listed, in the entries' order.
pub open spec fn listed(entries: Seq<(Seq<char>, Option<ContainerInfoView>)>) -> Seq<
    ContainerInfoView,
>
    decreases entries.len(),
{
    if entries.len() == 0 {
        Seq::empty()
    } else {
        let before = listed(entries.drop_last());
        if is_listed(entries.last()) {
            before.push(entries.last().1->Some_0)
        } else {
            before
        }
    }
}

/// Each record that is listed was read from an entry that is not reserved.
pub proof fn lemma_listed_skips_reserved(
    entries: Seq<(Seq<char>, Option<ContainerInfoView>)>,
    i: int,
)
    requires
        0 <= i < listed(entries).len(),
    ensures
        exists|k: int|
            0 <= k < entries.len() && !reserved_name((#[trigger] entries[k]).0) && entries[k].1
                == Some(listed(entries)[i]),
    decreases entries.len(),
{
    let before = listed(entries.drop_last());
    if is_listed(entries.last()) && i == before.len() {
        let k = entries.len() - 1;
        assert(!reserved_name(entries[k].0) && entries[k].1 == Some(listed(entries)[i]));
    } else {
        lemma_listed_skips_reserved(entries.drop_last(), i);
        let k = choose|k: int|
            0 <= k < entries.drop_last().len() && !reserved_name(
                (#[trigger] entries.drop_last()[k]).0,
            ) && entries.drop_last()[k].1 == Some(before[i]);
        assert(entries[k] == entries.drop_last()[k]);
    }
}

/// Two containers share a directory only if they share a name.
pub proof fn lemma_one_directory_per_name(a: Seq<char>, b: Seq<char>)
    requires
        container_dir_of(a) == container_dir_of(b),
    ensures
        a == b,
{
    let prefix = "/var/run/rocker/"@;
    let da = container_dir_of(a);
    let db = container_dir_of(b);
    let n = prefix.len() as int;
    assert(da.len() == n + a.len() + "/"@.len());
    assert(db.len() == n + b.len() + "/"@.len());
    assert(a.len() == b.len());
    assert forall|i: int| 0 <= i < a.len() implies a[i] == b[i] by {
        assert(da[n + i] == a[i]);
        assert(db[n + i] == b[i]);
    }
    assert(a =~= b);
}

impl ContainerStore {
    /// The directory of the container `container_name`.
    pub fn container_dir(container_name: &str) -> (path: String)
        ensures
            path@ == container_dir_of(container_name@),
    {
        String::from_str("/var/run/rocker/").concat(container_name).concat("/")
    }

    /// The file that holds the record of the container `container_name`.
    pub fn config_path(container_name: &str) -> (path: String)
        ensures
            path@ == config_path_of(container_name@),
    {
        ContainerStore::container_dir(container_name).concat("config.json")
    }

    /// The file that holds the captured output of the container
    /// `container_name`.
    pub fn log_path(container_name: &str) -> (path: String)
        ensures
            path@ == log_path_of(container_name@),
    {
        ContainerStore::container_dir(container_name).concat("container.log")
    }

    /// Where a record is written: the directory to make, with those above
    /// it, if it is missing, and the file that takes the record. Both go by
    /// the record's name.
    pub fn save(info: &ContainerInfo) -> (target: (String, String))
        ensures
            target.0@ == container_dir_of(info.name@),
            target.1@ == config_path_of(info.name@),
    {
        (
            ContainerStore::container_dir(info.name.as_str()),
            ContainerStore::config_path(info.name.as_str()),
        )
    }

    /// The record of the container `container_name`, given what was read of
    /// it: a container whose record file is absent is not found.
    pub fn load(container_name: &str, found: Option<ContainerInfo>) -> (info: Result<
        ContainerInfo,
        RuntimeError,
    >)
        ensures
            match found {
                Some(i) => info is Ok && info->Ok_0 == i,
                None => info is Err && info->Err_0@ == (RuntimeErrorView::MetadataNotFound {
                    name: container_name@,
                }),
            },
    {
        match found {
            Some(i) => Ok(i),
            None => Err(
                RuntimeError::MetadataNotFound { name: String::from_str(container_name) },
            ),
        }
    }

    /// The directory to remove, with all in it, to delete the record of the
    /// container `container_name`, given whether the directory is there;
    /// none if it is not, which is no failure.
    pub fn delete(container_name: &str, present: bool) -> (dir: Option<String>)
        ensures
            present ==> dir is Some && dir->Some_0@ == container_dir_of(container_name@),
            !present ==> dir is None,
    {
        if present {
            Some(ContainerStore::container_dir(container_name))
        } else {
            None
        }
    }

    /// Whether an entry of the store's directory names no container.
    pub fn is_reserved(name: &str) -> (reserved: bool)
        ensures
            reserved == reserved_name(name@),
    {
        String::from_str(name) == String::from_str("network")
    }

    /// The records of the store, given the entries of its directory: those
    /// of the entries that are not reserved and whose record could be read,
    /// in the entries' order.
    pub fn list_all(entries: Vec<StoreEntry>) -> (records: Vec<ContainerInfo>)
        ensures
            records_view(records@) == listed(entries_view(entries@)),
    {
        let ghost all = entries_view(entries@);
        let mut records: Vec<ContainerInfo> = Vec::new();
        assert(all.take(0) =~= Seq::<(Seq<char>, Option<ContainerInfoView>)>::empty());
        assert(records_view(records@) =~= listed(all.take(0)));
        for entry in it: entries
            invariant
                it.seq() == entries@,
                all == entries_view(entries@),
                records_view(records@) == listed(all.take(it.index() as int)),
        {
            let ghost k = it.index() as int;
            let ghost before = records_view(records@);
            assert(all.take(k + 1).drop_last() =~= all.take(k));
            assert(all.take(k + 1).last() == entry@);
            let reserved = ContainerStore::is_reserved(entry.name.as_str());
            match entry.loaded {
                Some(info) => {
                    if !reserved {
                        records.push(info);
                        assert(records_view(records@) =~= before.push(info@));
                    }
                },
                None => {},
            }
        }
        assert(all.take(entries@.len() as int) =~= all);
        records
    }

    /// The record to write back when the status of the container that `info`
    /// was read for changes to `status`: `info` with that status.
    pub fn update_status(info: ContainerInfo, status: ContainerStatus) -> (updated: ContainerInfo)
        ensures
            updated@ == (ContainerInfoView { status, ..info@ }),
            valid_record(info@) && (status != ContainerStatus::Running || info.pid@.len() > 0)
                ==> valid_record(updated@),
    {
        ContainerInfo {
            pid: info.pid,
            id: info.id,
            name: info.name,
            command: info.command,
            created_time: info.created_time,
            status,
            volume: info.volume,
            port_mapping: info.port_mapping,
            network: info.network,
            image_name: info.image_name,
        }
    }
}

} // verus!
