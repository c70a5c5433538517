//! What is kept about a container.

use crate::clock::{current_time, is_reading_text, now_nanos};
use crate::error::RuntimeError;
use crate::text::{
    all_digits, fixed_width, lemma_fixed_width_decimal, lemma_fixed_width_len, opt_text,
    push_fixed_width, texts_view,
};
use crate::wire::{
    bad_record, copy_texts, fields_view, lemma_lookup_finds, list_field, list_in, lookup,
    optional_text_field, optional_text_in, optional_text_member, record_error, text_field,
    text_in, text_member, Members, WireField, WireValue, WireValueView,
};
use vstd::prelude::*;

verus! {

/// Where a container is in its life.
#[derive(Debug, Clone, Copy, PartialEq, Eq, Structural)]
pub enum ContainerStatus {
    /// The container's process was started and has not been seen to end.
    Running,
    /// The container was told to stop.
    Stopped,
    /// The container's process ended by itself.
    Exited,
}

/// The word that stands for a status, in tables and in stored records.
pub open spec fn status_word(status: ContainerStatus) -> Seq<char> {
    match status {
        ContainerStatus::Running => "running"@,
        ContainerStatus::Stopped => "stopped"@,
        ContainerStatus::Exited => "exited"@,
    }
}

/// The status that a word stands for, if it stands for one.
pub open spec fn status_of_word(word: Seq<char>) -> Option<ContainerStatus> {
    if word == "running"@ {
        Some(ContainerStatus::Running)
    } else if word == "stopped"@ {
        Some(ContainerStatus::Stopped)
    } else if word == "exited"@ {
        Some(ContainerStatus::Exited)
    } else {
        None
    }
}

/// Every status is the one that its own word stands for.
pub proof fn lemma_status_word_round_trip(status: ContainerStatus)
    ensures
        status_of_word(status_word(status)) == Some(status),
{
    reveal_strlit("running");
    reveal_strlit("stopped");
    reveal_strlit("exited");
    assert("running"@.len() == 7);
    assert("stopped"@.len() == 7);
    assert("exited"@.len() == 6);
    assert("running"@[0] == 'r');
    assert("stopped"@[0] == 's');
}

impl ContainerStatus {
    /// The word that stands for this status.
    pub fn as_str(&self) -> (word: &'static str)
        ensures
            word@ == status_word(*self),
    {
        match self {
            ContainerStatus::Running => "running",
            ContainerStatus::Stopped => "stopped",
            ContainerStatus::Exited => "exited",
        }
    }

    /// The word that stands for this status, as a string of its own.
    pub fn to_string(&self) -> (word: String)
        ensures
            word@ == status_word(*self),
    {
        String::from_str(self.as_str())
    }

    /// The status that `word` stands for, if it stands for one.
    pub fn parse(word: &str) -> (status: Option<ContainerStatus>)
        ensures
            status == status_of_word(word@),
    {
        let word = String::from_str(word);
        if word == String::from_str("running") {
            Some(ContainerStatus::Running)
        } else if word == String::from_str("stopped") {
            Some(ContainerStatus::Stopped)
        } else if word == String::from_str("exited") {
            Some(ContainerStatus::Exited)
        } else {
            None
        }
    }
}

/// The record of one container.
#[derive(Debug)]
pub struct ContainerInfo {
    /// The process id, on the host, of the container's first process, in
    /// decimal; empty once the container was stopped.
    pub pid: String,
    /// Ten decimal digits that name the container.
    pub id: String,
    /// The name that the user gave, or the id.
    pub name: String,
    /// The command that runs in the container.
    pub command: String,
    /// When the container was made: UTC, as `YYYY-MM-DD HH:MM:SS`.
    pub created_time: String,
    pub status: ContainerStatus,
    /// A volume to mount, as `host_path:container_path`. Kept, not used.
    pub volume: Option<String>,
    /// Port mappings. Kept, not used.
    pub port_mapping: Vec<String>,
    /// The network's name. Kept, not used.
    pub network: Option<String>,
    /// The image, as `name:tag`.
    pub image_name: String,
}

/// A `ContainerInfo` with its texts as sequences of characters.
pub struct ContainerInfoView {
    pub pid: Seq<char>,
    pub id: Seq<char>,
    pub name: Seq<char>,
    pub command: Seq<char>,
    pub created_time: Seq<char>,
    pub status: ContainerStatus,
    pub volume: Option<Seq<char>>,
    pub port_mapping: Seq<Seq<char>>,
    pub network: Option<Seq<char>>,
    pub image_name: Seq<char>,
}

impl View for ContainerInfo {
    type V = ContainerInfoView;

    open spec fn view(&self) -> ContainerInfoView {
        ContainerInfoView {
            pid: self.pid@,
            id: self.id@,
            name: self.name@,
            command: self.command@,
            created_time: self.created_time@,
            status: self.status,
            volume: opt_text(self.volume),
            port_mapping: texts_view(self.port_mapping@),
            network: opt_text(self.network),
            image_name: self.image_name@,
        }
    }
}

/// The value that stands for a text that may be missing.
pub open spec fn optional_value(text: Option<Seq<char>>) -> WireValueView {
    match text {
        Some(t) => WireValueView::Text(t),
        None => WireValueView::Null,
    }
}

/// A record as it is written: its members, by the names that they have on
/// disk, in the order in which they are written. The status is written as
/// its word, a text that is missing as the null value.
pub open spec fn container_members(info: ContainerInfoView) -> Members {
    seq![
        ("pid"@, WireValueView::Text(info.pid)),
        ("id"@, WireValueView::Text(info.id)),
        ("name"@, WireValueView::Text(info.name)),
        ("command"@, WireValueView::Text(info.command)),
        ("createTime"@, WireValueView::Text(info.created_time)),
        ("status"@, WireValueView::Text(status_word(info.status))),
        ("volume"@, optional_value(info.volume)),
        ("portmapping"@, WireValueView::TextList(info.port_mapping)),
        ("network"@, optional_value(info.network)),
        ("imageName"@, WireValueView::Text(info.image_name)),
    ]
}

/// The status that the member `status` holds, if it holds the word of one.
pub open spec fn status_in(found: Option<WireValueView>) -> Option<ContainerStatus> {
    match text_in(found) {
        Some(word) => status_of_word(word),
        None => None,
    }
}

/// The record that written members hold: each member is looked up by its
/// name, wherever it stands, and other members are passed over. The volume
/// and the network may be missing or null; every other member must be
/// there and hold a value of its kind.
pub open spec fn container_of_members(members: Members) -> Option<ContainerInfoView> {
    let pid = text_in(lookup(members, "pid"@));
    let id = text_in(lookup(members, "id"@));
    let name = text_in(lookup(members, "name"@));
    let command = text_in(lookup(members, "command"@));
    let created_time = text_in(lookup(members, "createTime"@));
    let status = status_in(lookup(members, "status"@));
    let volume = optional_text_in(lookup(members, "volume"@));
    let port_mapping = list_in(lookup(members, "portmapping"@));
    let network = optional_text_in(lookup(members, "network"@));
    let image_name = text_in(lookup(members, "imageName"@));
    if pid is Some && id is Some && name is Some && command is Some && created_time is Some
        && status is Some && volume is Some && port_mapping is Some && network is Some
        && image_name is Some {
        Some(
            ContainerInfoView {
                pid: pid->Some_0,
                id: id->Some_0,
                name: name->Some_0,
                command: command->Some_0,
                created_time: created_time->Some_0,
                status: status->Some_0,
                volume: volume->Some_0,
                port_mapping: port_mapping->Some_0,
                network: network->Some_0,
                image_name: image_name->Some_0,
            },
        )
    } else {
        None
    }
}

/// The names of a record's members differ from each other, so that each
/// member of a written record is found under its name.
proof fn lemma_container_members_are_found(info: ContainerInfoView)
    ensures
        forall|k: int|
            0 <= k < 10 ==> lookup(
                container_members(info),
                (#[trigger] container_members(info)[k]).0,
            ) == Some(container_members(info)[k].1),
{
    reveal_strlit("pid");
    reveal_strlit("id");
    reveal_strlit("name");
    reveal_strlit("command");
    reveal_strlit("createTime");
    reveal_strlit("status");
    reveal_strlit("volume");
    reveal_strlit("portmapping");
    reveal_strlit("network");
    reveal_strlit("imageName");
    let members = container_members(info);
    assert("command"@[0] == 'c' && "network"@[0] == 'n');
    assert("status"@[0] == 's' && "volume"@[0] == 'v');
    assert forall|k: int| 0 <= k < 10 implies lookup(members, (#[trigger] members[k]).0) == Some(
        members[k].1,
    ) by {
        assert forall|j: int| 0 <= j < k implies (#[trigger] members[j]).0 != members[k].0 by {
            assert(members[j].0.len() != members[k].0.len() || members[j].0[0] != members[k].0[0]);
        }
        lemma_lookup_finds(members, k);
    }
}

/// What is written of a record is read back as that record, member by
/// member.
pub proof fn lemma_record_round_trip(info: ContainerInfoView)
    ensures
        container_of_members(container_members(info)) == Some(info),
{
    let members = container_members(info);
    lemma_container_members_are_found(info);
    lemma_status_word_round_trip(info.status);
    assert(lookup(members, "pid"@) == Some(members[0].1));
    assert(lookup(members, "id"@) == Some(members[1].1));
    assert(lookup(members, "name"@) == Some(members[2].1));
    assert(lookup(members, "command"@) == Some(members[3].1));
    assert(lookup(members, "createTime"@) == Some(members[4].1));
    assert(lookup(members, "status"@) == Some(members[5].1));
    assert(lookup(members, "volume"@) == Some(members[6].1));
    assert(lookup(members, "portmapping"@) == Some(members[7].1));
    assert(lookup(members, "network"@) == Some(members[8].1));
    assert(lookup(members, "imageName"@) == Some(members[9].1));
}

/// Whether `id` has the form of a container's id: ten decimal digits.
pub open spec fn is_container_id(id: Seq<char>) -> bool {
    id.len() == 10 && all_digits(id)
}

/// Whether a record is one that the runtime writes: its id has the form of
/// an id, and if it is running it has a process id.
pub open spec fn valid_record(info: ContainerInfoView) -> bool {
    &&& is_container_id(info.id)
    &&& info.status == ContainerStatus::Running ==> info.pid.len() > 0
}

/// The id made from a clock reading in nanoseconds: its last ten decimal
/// digits.
pub open spec fn id_of_nanos(nanos: nat) -> Seq<char> {
    fixed_width(nanos % 10_000_000_000, 10, 10)
}

/// Every id made from a clock reading has the form of an id.
pub proof fn lemma_id_of_nanos_is_id(nanos: nat)
    ensures
        is_container_id(id_of_nanos(nanos)),
{
    lemma_fixed_width_len(nanos % 10_000_000_000, 10, 10);
    lemma_fixed_width_decimal(nanos % 10_000_000_000, 10);
}

impl ContainerInfo {
    /// The id made from a clock reading in nanoseconds.
    pub fn id_from_nanos(nanos: u64) -> (id: String)
        ensures
            id@ == id_of_nanos(nanos as nat),
            is_container_id(id@),
    {
        let mut id = String::new();
        push_fixed_width(&mut id, nanos % 10_000_000_000, 10, 10);
        proof {
            lemma_id_of_nanos_is_id(nanos as nat);
            assert(id@ =~= id_of_nanos(nanos as nat));
        }
        id
    }

    /// A fresh id, made from the system's clock: ten decimal digits.
    pub fn generate_id() -> (id: String)
        ensures
            is_container_id(id@),
            id@.len() == 10,
            all_digits(id@),
    {
        let nanos: u128 = now_nanos();
        let low: u64 = (nanos % 0x1_0000_0000_0000_0000) as u64;
        ContainerInfo::id_from_nanos(low)
    }

    /// The time now in UTC by the system's clock, as `YYYY-MM-DD HH:MM:SS`.
    pub fn current_time() -> (text: String)
        ensures
            is_reading_text(text@),
    {
        current_time()
    }

    /// The record as it is written: its members by the names that they
    /// have on disk.
    pub fn to_fields(&self) -> (fields: Vec<WireField>)
        ensures
            fields_view(fields@) == container_members(self@),
    {
        let mut fields: Vec<WireField> = Vec::new();
        fields.push(text_member("pid", &self.pid));
        fields.push(text_member("id", &self.id));
        fields.push(text_member("name", &self.name));
        fields.push(text_member("command", &self.command));
        fields.push(text_member("createTime", &self.created_time));
        fields.push(
            WireField {
                name: String::from_str("status"),
                value: WireValue::Text(self.status.to_string()),
            },
        );
        fields.push(optional_text_member("volume", &self.volume));
        fields.push(
            WireField {
                name: String::from_str("portmapping"),
                value: WireValue::TextList(copy_texts(&self.port_mapping)),
            },
        );
        fields.push(optional_text_member("network", &self.network));
        fields.push(text_member("imageName", &self.image_name));
        assert(fields_view(fields@) =~= container_members(self@));
        fields
    }

    /// The record that written members hold, if they hold one.
    pub fn from_fields(fields: &Vec<WireField>) -> (info: Result<ContainerInfo, RuntimeError>)
        ensures
            match container_of_members(fields_view(fields@)) {
                Some(record) => info is Ok && info->Ok_0@ == record,
                None => info is Err && info->Err_0@ == bad_record("container record"@),
            },
    {
        let pid = text_field(fields, "pid");
        let id = text_field(fields, "id");
        let name = text_field(fields, "name");
        let command = text_field(fields, "command");
        let created_time = text_field(fields, "createTime");
        let status = match text_field(fields, "status") {
            Some(word) => ContainerStatus::parse(word.as_str()),
            None => None,
        };
        let volume = optional_text_field(fields, "volume");
        let port_mapping = list_field(fields, "portmapping");
        let network = optional_text_field(fields, "network");
        let image_name = text_field(fields, "imageName");
        match (
            pid,
            id,
            name,
            command,
            created_time,
            status,
            volume,
            port_mapping,
            network,
            image_name,
        ) {
            (
                Some(pid),
                Some(id),
                Some(name),
                Some(command),
                Some(created_time),
                Some(status),
                Some(volume),
                Some(port_mapping),
                Some(network),
                Some(image_name),
            ) => Ok(
                ContainerInfo {
                    pid,
                    id,
                    name,
                    command,
                    created_time,
                    status,
                    volume,
                    port_mapping,
                    network,
                    image_name,
                },
            ),
            _ => Err(record_error("container record")),
        }
    }

    /// A second record with the same contents.
    pub fn duplicate(&self) -> (copy: ContainerInfo)
        ensures
            copy@ == self@,
    {
        let mut ports: Vec<String> = Vec::new();
        let mut k: usize = 0;
        while k < self.port_mapping.len()
            invariant
                k <= self.port_mapping.len(),
                ports.len() == k,
                forall|j: int| 0 <= j < k ==> ports@[j]@ == self.port_mapping@[j]@,
            decreases self.port_mapping.len() - k,
        {
            ports.push(self.port_mapping[k].clone());
            k = k + 1;
        }
        assert(texts_view(ports@) =~= texts_view(self.port_mapping@));
        ContainerInfo {
            pid: self.pid.clone(),
            id: self.id.clone(),
            name: self.name.clone(),
            command: self.command.clone(),
            created_time: self.created_time.clone(),
            status: self.status,
            volume: match &self.volume {
                Some(v) => Some(v.clone()),
                None => None,
            },
            port_mapping: ports,
            network: match &self.network {
                Some(n) => Some(n.clone()),
                None => None,
            },
            image_name: self.image_name.clone(),
        }
    }
}

} // verus!
