//! OVN central: the northbound and southbound databases and `ovn-northd`, run on the
//! nodes labelled for them.
use vstd::prelude::*;

use crate::cluster::manifest::{
    app_labels, daemonset, host_pod_spec, jobj1, jobj2, jstr, object1, object2, privileged, push_entry,
    push_text, rundir_env, spec_app_labels, spec_daemonset, spec_host_pod_spec, spec_privileged,
    spec_rundir_env, spec_volume_mount, spec_volume_mounts, volume_mounts_json, VolumeMount,
};
use crate::errors::Error;
use crate::json::{entries_view, json_member, json_object, json_str, values_view, JsonData, JsonEntry, JsonValue};
use crate::text::{chars_of, decimal_seq, has_text, lemma_has_text_middle, push_str, u64_to_decimal};

verus! {

broadcast use crate::json::data::group_json_view;

/// The name of the OVN central daemon set and of its pods' label.
pub const OVN_CENTRAL_NAME: &'static str = "ovn-central";

/// The node label whose value "managed" places OVN central on a node.
pub const OVN_CENTRAL_MANAGED_LABEL: &'static str = "cluster-virt.acl.fi/ovn-central";

/// The members that every OVN central container has: its image, a shell as command,
/// the OVN run directories, a request for ephemeral storage and privileges.
pub open spec fn spec_container_base(image: Seq<char>) -> Seq<(Seq<char>, JsonData)> {
    seq![
        ("image"@, jstr(image)),
        ("command"@, JsonData::Array(seq![jstr("bash"@)])),
        ("env"@, spec_rundir_env()),
        ("resources"@, jobj1("requests"@, jobj1("ephemeral-storage"@, jstr("128Mi"@)))),
        ("securityContext"@, spec_privileged()),
    ]
}

/// The members that every OVN central container has.
pub fn container_base(image: String) -> (r: Vec<JsonEntry>)
    ensures
        entries_view(r@) == spec_container_base(image@),
{
    let mut command: Vec<JsonValue> = Vec::new();
    push_text(&mut command, "bash");
    assert(values_view(command@) =~= seq![jstr("bash"@)]);
    let mut entries: Vec<JsonEntry> = Vec::new();
    push_entry(&mut entries, "image", json_str(image.as_str()));
    push_entry(&mut entries, "command", JsonValue::Array(command));
    push_entry(&mut entries, "env", rundir_env());
    push_entry(
        &mut entries,
        "resources",
        object1("requests", object1("ephemeral-storage", json_str("128Mi"))),
    );
    push_entry(&mut entries, "securityContext", privileged());
    assert(entries_view(entries@) =~= spec_container_base(image@));
    entries
}

/// The database script up to the name of its first file.
pub const SCRIPT_START: &'static str = "set -euo pipefail\n                            local_ip=\"$(ip -j address show lo | jq -r '.[0].addr_info[] | select(.scope == \"global\").local')\"\n                            if [[ \"$local_ip\" != 10.* ]]; then\n                                exit 1;\n                            fi\n\n                            test -f /var/lib/ovn/";

/// The database script between the first file and the file of the join.
pub const SCRIPT_JOIN: &'static str = ".db || ovsdb-tool join-cluster /var/lib/ovn/";

/// The database script between the join and the server's pid file.
pub const SCRIPT_JOIN_REMOTE: &'static str = " #temporary remote during migration\n\n                            ovsdb-server -vconsole:info --pidfile=/var/run/ovn/";

/// The shell script of a database container: it finds the node's address on the
/// loopback interface (and fails unless it is in 10.0.0.0/8), joins the database
/// `db_name` to its raft cluster unless its file exists, and runs the database server
/// on `client_port`.
pub open spec fn spec_ovsdb_script(db_name: Seq<char>, file_prefix: Seq<char>, client_port: u16, cluster_port: u16) -> Seq<char> {
    SCRIPT_START@ + file_prefix + SCRIPT_JOIN@ + file_prefix + ".db "@ + db_name + " tcp:$local_ip:"@
        + decimal_seq(cluster_port as nat) + " tcp:10.4.0.31:"@ + decimal_seq(cluster_port as nat)
        + SCRIPT_JOIN_REMOTE@ + file_prefix + ".pid --unixctl=/var/run/ovn/"@ + file_prefix
        + ".ctl --monitor --remote=punix:/var/run/ovn/"@ + file_prefix + ".sock --remote=ptcp:"@
        + decimal_seq(client_port as nat) + ":$local_ip /var/lib/ovn/"@ + file_prefix + ".db"@
}

fn ovsdb_script(db_name: &str, file_prefix: &str, client_port: u16, cluster_port: u16) -> (r: String)
    ensures
        r@ == spec_ovsdb_script(db_name@, file_prefix@, client_port, cluster_port),
{
    let cluster = u64_to_decimal(cluster_port as u64);
    let client = u64_to_decimal(client_port as u64);
    let mut s = String::new();
    push_str(&mut s, SCRIPT_START);
    push_str(&mut s, file_prefix);
    push_str(&mut s, SCRIPT_JOIN);
    push_str(&mut s, file_prefix);
    push_str(&mut s, ".db ");
    push_str(&mut s, db_name);
    push_str(&mut s, " tcp:$local_ip:");
    push_str(&mut s, cluster.as_str());
    push_str(&mut s, " tcp:10.4.0.31:");
    push_str(&mut s, cluster.as_str());
    push_str(&mut s, SCRIPT_JOIN_REMOTE);
    push_str(&mut s, file_prefix);
    push_str(&mut s, ".pid --unixctl=/var/run/ovn/");
    push_str(&mut s, file_prefix);
    push_str(&mut s, ".ctl --monitor --remote=punix:/var/run/ovn/");
    push_str(&mut s, file_prefix);
    push_str(&mut s, ".sock --remote=ptcp:");
    push_str(&mut s, client.as_str());
    push_str(&mut s, ":$local_ip /var/lib/ovn/");
    push_str(&mut s, file_prefix);
    push_str(&mut s, ".db");
    s
}

/// A container named `name` that runs the database `db_name`, stored in files named
/// after `file_prefix`, for clients on `client_port` and its raft cluster on
/// `cluster_port`.
pub open spec fn spec_ovsdb_container(
    name: Seq<char>,
    image: Seq<char>,
    volume_mounts: JsonData,
    db_name: Seq<char>,
    file_prefix: Seq<char>,
    client_port: u16,
    cluster_port: u16,
) -> JsonData {
    JsonData::Object(
        seq![
            ("name"@, jstr(name)),
            (
                "args"@,
                JsonData::Array(
                    seq![jstr("-c"@), jstr(spec_ovsdb_script(db_name, file_prefix, client_port, cluster_port))],
                ),
            ),
            ("volumeMounts"@, volume_mounts),
        ] + spec_container_base(image),
    )
}

/// The container that runs an OVN database server.
pub fn ovsdb_container(
    name: String,
    image: String,
    volume_mounts: Vec<VolumeMount>,
    db_name: String,
    file_prefix: String,
    client_port: u16,
    cluster_port: u16,
) -> (r: JsonValue)
    ensures
        r@ == spec_ovsdb_container(
            name@,
            image@,
            spec_volume_mounts(volume_mounts@),
            db_name@,
            file_prefix@,
            client_port,
            cluster_port,
        ),
{
    let script = ovsdb_script(db_name.as_str(), file_prefix.as_str(), client_port, cluster_port);
    let mut args: Vec<JsonValue> = Vec::new();
    push_text(&mut args, "-c");
    push_text(&mut args, script.as_str());
    let ghost args_view = values_view(args@);
    let mut entries: Vec<JsonEntry> = Vec::new();
    push_entry(&mut entries, "name", json_str(name.as_str()));
    push_entry(&mut entries, "args", JsonValue::Array(args));
    push_entry(&mut entries, "volumeMounts", volume_mounts_json(&volume_mounts));
    let ghost head = entries_view(entries@);
    let base = container_base(image);
    let ghost base_view = entries_view(base@);
    let mut i: usize = 0;
    while i < base.len()
        invariant
            i <= base.len(),
            base_view == entries_view(base@),
            entries_view(entries@) == head + base_view.take(i as int),
        decreases base.len() - i,
    {
        let e = JsonEntry { key: base[i].key.clone(), value: base[i].value.deep_clone() };
        let ghost before = entries_view(entries@);
        entries.push(e);
        assert(entries_view(entries@) =~= before.push(base_view[i as int]));
        assert(base_view.take(i + 1) =~= base_view.take(i as int).push(base_view[i as int]));
        i = i + 1;
    }
    assert(base_view.take(base.len() as int) =~= base_view);
    assert(args_view =~= seq![
        jstr("-c"@),
        jstr(spec_ovsdb_script(db_name@, file_prefix@, client_port, cluster_port)),
    ]);
    assert(entries_view(entries@) =~= spec_ovsdb_container(
        name@,
        image@,
        spec_volume_mounts(volume_mounts@),
        db_name@,
        file_prefix@,
        client_port,
        cluster_port,
    )->Object_0);
    json_object(entries)
}

/// The northbound database servers of the cluster.
pub const NBDB_ADDRESSES: &'static str = "tcp:10.4.3.1:6641,tcp:10.4.3.2:6641,tcp:10.4.3.4:6641,tcp:10.4.3.5:6641,tcp:10.4.3.6:6641";

/// The southbound database servers of the cluster.
pub const SBDB_ADDRESSES: &'static str = "tcp:10.4.3.1:6642,tcp:10.4.3.2:6642,tcp:10.4.3.4:6642,tcp:10.4.3.5:6642,tcp:10.4.3.6:6642";

/// The `ovn-northd` script up to the northbound database servers.
pub const NORTHD_SCRIPT_START: &'static str = "set -euo pipefail\n                         ovn-northd -vconsole:info --pidfile=/var/run/ovn/northd.pid --ovnnb-db=";

/// The shell script of the `ovn-northd` container, which connects it to the database
/// servers.
pub open spec fn spec_northd_script() -> Seq<char> {
    NORTHD_SCRIPT_START@ + NBDB_ADDRESSES@ + " --ovnsb-db="@ + SBDB_ADDRESSES@
}

/// The container that runs `ovn-northd`.
pub open spec fn spec_northd_container(image: Seq<char>, volume_mounts: JsonData) -> JsonData {
    JsonData::Object(
        seq![
            ("name"@, jstr("northd"@)),
            ("args"@, JsonData::Array(seq![jstr("-c"@), jstr(spec_northd_script())])),
            ("volumeMounts"@, volume_mounts),
        ] + spec_container_base(image),
    )
}

/// The container that runs `ovn-northd`; the addresses of the database servers are
/// fixed, not taken from `_ip_addresses`.
pub fn ovn_northd_container(image: String, volume_mounts: Vec<VolumeMount>, _ip_addresses: Vec<String>) -> (r:
    JsonValue)
    ensures
        r@ == spec_northd_container(image@, spec_volume_mounts(volume_mounts@)),
{
    let mut script = String::new();
    push_str(&mut script, NORTHD_SCRIPT_START);
    push_str(&mut script, NBDB_ADDRESSES);
    push_str(&mut script, " --ovnsb-db=");
    push_str(&mut script, SBDB_ADDRESSES);
    let mut args: Vec<JsonValue> = Vec::new();
    push_text(&mut args, "-c");
    push_text(&mut args, script.as_str());
    let ghost args_view = values_view(args@);
    let mut entries: Vec<JsonEntry> = Vec::new();
    push_entry(&mut entries, "name", json_str("northd"));
    push_entry(&mut entries, "args", JsonValue::Array(args));
    push_entry(&mut entries, "volumeMounts", volume_mounts_json(&volume_mounts));
    let ghost head = entries_view(entries@);
    let base = container_base(image);
    let ghost base_view = entries_view(base@);
    let mut i: usize = 0;
    while i < base.len()
        invariant
            i <= base.len(),
            base_view == entries_view(base@),
            entries_view(entries@) == head + base_view.take(i as int),
        decreases base.len() - i,
    {
        let e = JsonEntry { key: base[i].key.clone(), value: base[i].value.deep_clone() };
        let ghost before = entries_view(entries@);
        entries.push(e);
        assert(entries_view(entries@) =~= before.push(base_view[i as int]));
        assert(base_view.take(i + 1) =~= base_view.take(i as int).push(base_view[i as int]));
        i = i + 1;
    }
    assert(base_view.take(base.len() as int) =~= base_view);
    assert(args_view =~= seq![jstr("-c"@), jstr(spec_northd_script())]);
    assert(entries_view(entries@) =~= spec_northd_container(image@, spec_volume_mounts(volume_mounts@))->Object_0);
    json_object(entries)
}

/// The name of the volume of the host directory `path`: the path without its leading
/// character, with '-' for '/'.
pub open spec fn spec_volume_name(path: Seq<char>) -> Seq<char> {
    path.drop_first().map_values(|c: char| if c == '/' { '-' } else { c })
}

/// The name of the volume of the host directory `path`.
pub fn volume_name(path: &str) -> (r: String)
    requires
        path@.len() > 0,
    ensures
        r@ == spec_volume_name(path@),
{
    let chars = chars_of(path);
    let mut r = String::new();
    let mut i: usize = 1;
    while i < chars.len()
        invariant
            1 <= i <= chars.len(),
            chars@ == path@,
            r@ == path@.subrange(1, i as int).map_values(|c: char| if c == '/' { '-' } else { c }),
        decreases chars.len() - i,
    {
        let c = chars[i];
        let ghost before = r@;
        if c == '/' {
            r.push('-');
        } else {
            r.push(c);
        }
        assert(path@.subrange(1, i + 1) =~= path@.subrange(1, i as int).push(c));
        i = i + 1;
        assert(r@ =~= path@.subrange(1, i as int).map_values(|c: char| if c == '/' { '-' } else { c }));
    }
    assert(path@.subrange(1, path@.len() as int) =~= path@.drop_first());
    r
}

/// The host directories that OVN central keeps its state and sockets in.
pub open spec fn host_volume_paths() -> Seq<Seq<char>> {
    seq!["/var/run/openvswitch"@, "/var/run/ovn"@, "/var/lib/ovn"@, "/etc/openvswitch"@]
}

/// The volume of the host directory `path`, created when missing.
pub open spec fn spec_host_volume(path: Seq<char>) -> JsonData {
    jobj2(
        "name"@,
        jstr(spec_volume_name(path)),
        "hostPath"@,
        jobj2("path"@, jstr(path), "type"@, jstr("DirectoryOrCreate"@)),
    )
}

/// The mount of the volume of the host directory `path` at the same place.
pub open spec fn spec_host_mount(path: Seq<char>) -> JsonData {
    jobj2("name"@, jstr(spec_volume_name(path)), "mountPath"@, jstr(path))
}

/// The daemon set of OVN central in `namespace`, running `image`: the northbound and
/// southbound databases and `ovn-northd`, each with every host directory mounted.
pub open spec fn spec_central_daemonset(image: Seq<char>, namespace: Seq<char>) -> JsonData {
    let mounts = spec_host_mounts();
    spec_daemonset(
        OVN_CENTRAL_NAME@,
        namespace,
        spec_app_labels(OVN_CENTRAL_NAME@),
        spec_host_pod_spec(
            seq![
                spec_ovsdb_container("nbdb"@, image, mounts, "OVN_Northbound"@, "ovnnb_db"@, 6641, 6643),
                spec_ovsdb_container("sbdb"@, image, mounts, "OVN_Southbound"@, "ovnsb_db"@, 6642, 6644),
                spec_northd_container(image, mounts),
            ],
            OVN_CENTRAL_MANAGED_LABEL@,
            JsonData::Array(host_volume_paths().map_values(|p: Seq<char>| spec_host_volume(p))),
        ),
    )
}

/// The mounts of every host directory, in order.
pub open spec fn spec_host_mounts() -> JsonData {
    JsonData::Array(host_volume_paths().map_values(|p: Seq<char>| spec_host_mount(p)))
}

fn host_volume(path: &str) -> (r: JsonValue)
    requires
        path@.len() > 0,
    ensures
        r@ == spec_host_volume(path@),
{
    let name = volume_name(path);
    object2(
        "name",
        json_str(name.as_str()),
        "hostPath",
        object2("path", json_str(path), "type", json_str("DirectoryOrCreate")),
    )
}

fn host_mount(path: &str) -> (r: VolumeMount)
    requires
        path@.len() > 0,
    ensures
        spec_volume_mount(r) == spec_host_mount(path@),
{
    VolumeMount { name: volume_name(path), mount_path: path.to_owned() }
}

fn host_mounts() -> (r: Vec<VolumeMount>)
    ensures
        spec_volume_mounts(r@) == spec_host_mounts(),
{
    proof {
        reveal_strlit("/var/run/openvswitch");
        reveal_strlit("/var/run/ovn");
        reveal_strlit("/var/lib/ovn");
        reveal_strlit("/etc/openvswitch");
    }
    let mut r: Vec<VolumeMount> = Vec::new();
    r.push(host_mount("/var/run/openvswitch"));
    r.push(host_mount("/var/run/ovn"));
    r.push(host_mount("/var/lib/ovn"));
    r.push(host_mount("/etc/openvswitch"));
    assert(r@.map_values(|m: VolumeMount| spec_volume_mount(m)) =~= host_volume_paths().map_values(
        |p: Seq<char>| spec_host_mount(p),
    ));
    r
}

fn host_volumes() -> (r: JsonValue)
    ensures
        r@ == JsonData::Array(host_volume_paths().map_values(|p: Seq<char>| spec_host_volume(p))),
{
    proof {
        reveal_strlit("/var/run/openvswitch");
        reveal_strlit("/var/run/ovn");
        reveal_strlit("/var/lib/ovn");
        reveal_strlit("/etc/openvswitch");
    }
    let mut items: Vec<JsonValue> = Vec::new();
    items.push(host_volume("/var/run/openvswitch"));
    items.push(host_volume("/var/run/ovn"));
    items.push(host_volume("/var/lib/ovn"));
    items.push(host_volume("/etc/openvswitch"));
    assert(values_view(items@) =~= host_volume_paths().map_values(|p: Seq<char>| spec_host_volume(p)));
    JsonValue::Array(items)
}

fn copy_mounts(mounts: &Vec<VolumeMount>) -> (r: Vec<VolumeMount>)
    ensures
        r@ == mounts@,
{
    let mut r: Vec<VolumeMount> = Vec::new();
    let mut i: usize = 0;
    while i < mounts.len()
        invariant
            i <= mounts.len(),
            r@ == mounts@.take(i as int),
        decreases mounts.len() - i,
    {
        r.push(VolumeMount { name: mounts[i].name.clone(), mount_path: mounts[i].mount_path.clone() });
        i = i + 1;
        assert(r@ =~= mounts@.take(i as int));
    }
    assert(mounts@.take(mounts.len() as int) =~= mounts@);
    r
}

/// The daemon set that runs OVN central, from `image`, in `namespace`, on the nodes
/// labelled for it.
pub fn make_daemonset(image: String, namespace: &str) -> (r: Result<JsonValue, Error>)
    ensures
        r matches Ok(ds) && ds@ == spec_central_daemonset(image@, namespace@),
{
    let volume_mounts = host_mounts();
    let ghost mounts = spec_host_mounts();
    let nbdb = ovsdb_container(
        "nbdb".to_owned(),
        image.clone(),
        copy_mounts(&volume_mounts),
        "OVN_Northbound".to_owned(),
        "ovnnb_db".to_owned(),
        6641,
        6643,
    );
    let sbdb = ovsdb_container(
        "sbdb".to_owned(),
        image.clone(),
        copy_mounts(&volume_mounts),
        "OVN_Southbound".to_owned(),
        "ovnsb_db".to_owned(),
        6642,
        6644,
    );
    let ghost image_view = image@;
    let northd = ovn_northd_container(image, volume_mounts, Vec::new());
    let mut containers: Vec<JsonValue> = Vec::new();
    containers.push(nbdb);
    containers.push(sbdb);
    containers.push(northd);
    let ghost cv = values_view(containers@);
    assert(cv =~= seq![
        spec_ovsdb_container("nbdb"@, image_view, mounts, "OVN_Northbound"@, "ovnnb_db"@, 6641, 6643),
        spec_ovsdb_container("sbdb"@, image_view, mounts, "OVN_Southbound"@, "ovnsb_db"@, 6642, 6644),
        spec_northd_container(image_view, mounts),
    ]);
    let pod_spec = host_pod_spec(containers, OVN_CENTRAL_MANAGED_LABEL, host_volumes());
    let ds = daemonset(OVN_CENTRAL_NAME, namespace, app_labels(OVN_CENTRAL_NAME), pod_spec);

    Ok(ds)
}

/// The script that a database container runs: the second of its arguments.
pub open spec fn container_script(container: JsonData) -> Option<Seq<char>> {
    match json_member(container, "args"@) {
        Some(JsonData::Array(args)) => if args.len() == 2 {
            match args[1] {
                JsonData::Str(script) => Some(script),
                _ => None,
            }
        } else {
            None
        },
        _ => None,
    }
}

/// Every file of a database server is named after its file prefix: the script of the
/// container that runs the database `db_name` joins the cluster with the database file
/// `/var/lib/ovn/PREFIX.db`, passing the database name as the join's argument, and runs the server with the pid file `/var/run/ovn/PREFIX.pid`, the
/// control socket `/var/run/ovn/PREFIX.ctl`, the client socket
/// `/var/run/ovn/PREFIX.sock` and the database file `/var/lib/ovn/PREFIX.db`. It
/// listens for clients on `client_port` and joins the raft cluster on `cluster_port`.
pub proof fn lemma_ovsdb_files_follow_prefix(
    name: Seq<char>,
    image: Seq<char>,
    volume_mounts: JsonData,
    db_name: Seq<char>,
    file_prefix: Seq<char>,
    client_port: u16,
    cluster_port: u16,
)
    ensures
        container_script(
            spec_ovsdb_container(name, image, volume_mounts, db_name, file_prefix, client_port, cluster_port),
        ) matches Some(script) && {
            &&& has_text(script, "join-cluster /var/lib/ovn/"@ + file_prefix + ".db "@ + db_name + " tcp:"@)
            &&& has_text(script, "--pidfile=/var/run/ovn/"@ + file_prefix + ".pid"@)
            &&& has_text(script, "--unixctl=/var/run/ovn/"@ + file_prefix + ".ctl"@)
            &&& has_text(script, "--remote=punix:/var/run/ovn/"@ + file_prefix + ".sock"@)
            &&& has_text(script, " /var/lib/ovn/"@ + file_prefix + ".db"@)
            &&& script.len() >= (" /var/lib/ovn/"@ + file_prefix + ".db"@).len()
            &&& script.skip(script.len() - (" /var/lib/ovn/"@ + file_prefix + ".db"@).len())
                == " /var/lib/ovn/"@ + file_prefix + ".db"@
            &&& has_text(script, "--remote=ptcp:"@ + decimal_seq(client_port as nat) + ":$local_ip"@)
            &&& has_text(
                script,
                "tcp:$local_ip:"@ + decimal_seq(cluster_port as nat) + " tcp:10.4.0.31:"@ + decimal_seq(
                    cluster_port as nat,
                ),
            )
        },
{
    let container = spec_ovsdb_container(name, image, volume_mounts, db_name, file_prefix, client_port, cluster_port);
    let script = spec_ovsdb_script(db_name, file_prefix, client_port, cluster_port);
    reveal_strlit("args");
    reveal_strlit("name");
    let e0 = ("name"@, jstr(name));
    let e1 = ("args"@, JsonData::Array(seq![jstr("-c"@), jstr(script)]));
    let rest = seq![("volumeMounts"@, volume_mounts)] + spec_container_base(image);
    crate::json::lemma_lookup_cons(e0, seq![e1] + rest, "args"@);
    crate::json::lemma_lookup_cons(e1, rest, "args"@);
    assert(seq![e0, e1, ("volumeMounts"@, volume_mounts)] + spec_container_base(image) =~= seq![e0] + (seq![e1]
        + rest));
    assert("name"@.len() == 4 && "args"@.len() == 4 && "name"@[0] != "args"@[0]);
    assert(container_script(container) == Some(script));

    lemma_script_names_files(db_name, file_prefix, client_port, cluster_port);
}

/// How the fixed pieces of the database script split.
proof fn lemma_script_pieces()
    ensures
        SCRIPT_JOIN_REMOTE@.len() >= 23,
        SCRIPT_JOIN_REMOTE@ == SCRIPT_JOIN_REMOTE@.take(SCRIPT_JOIN_REMOTE@.len() - 23) + "--pidfile=/var/run/ovn/"@,
        SCRIPT_JOIN@ == ".db || ovsdb-tool "@ + "join-cluster /var/lib/ovn/"@,
        " tcp:$local_ip:"@ == " tcp:"@ + "$local_ip:"@,
        ".pid --unixctl=/var/run/ovn/"@ == ".pid"@ + " --unixctl=/var/run/ovn/"@,
        ".pid --unixctl=/var/run/ovn/"@ == ".pid "@ + "--unixctl=/var/run/ovn/"@,
        ".ctl --monitor --remote=punix:/var/run/ovn/"@ == ".ctl"@ + " --monitor --remote=punix:/var/run/ovn/"@,
        ".ctl --monitor --remote=punix:/var/run/ovn/"@ == ".ctl --monitor "@ + "--remote=punix:/var/run/ovn/"@,
        ".sock --remote=ptcp:"@ == ".sock"@ + " --remote=ptcp:"@,
        ":$local_ip /var/lib/ovn/"@ == ":$local_ip"@ + " /var/lib/ovn/"@,
        " tcp:$local_ip:"@ == " "@ + "tcp:$local_ip:"@,
        ".sock --remote=ptcp:"@ == ".sock "@ + "--remote=ptcp:"@,
{
    reveal_strlit(" #temporary remote during migration\n\n                            ovsdb-server -vconsole:info --pidfile=/var/run/ovn/");
    reveal_strlit(".db || ovsdb-tool join-cluster /var/lib/ovn/");
    reveal_strlit(".db || ovsdb-tool ");
    reveal_strlit("join-cluster /var/lib/ovn/");
    reveal_strlit(".db ");
    reveal_strlit(" tcp:$local_ip:");
    reveal_strlit(" tcp:");
    reveal_strlit("$local_ip:");
    reveal_strlit("--pidfile=/var/run/ovn/");
    reveal_strlit(".pid --unixctl=/var/run/ovn/");
    reveal_strlit(".pid");
    reveal_strlit(" --unixctl=/var/run/ovn/");
    reveal_strlit(".pid ");
    reveal_strlit("--unixctl=/var/run/ovn/");
    reveal_strlit(".ctl --monitor --remote=punix:/var/run/ovn/");
    reveal_strlit(".ctl");
    reveal_strlit(" --monitor --remote=punix:/var/run/ovn/");
    reveal_strlit(".ctl --monitor ");
    reveal_strlit("--remote=punix:/var/run/ovn/");
    reveal_strlit(".sock --remote=ptcp:");
    reveal_strlit(".sock");
    reveal_strlit(" --remote=ptcp:");
    reveal_strlit(":$local_ip /var/lib/ovn/");
    reveal_strlit(":$local_ip");
    reveal_strlit(" /var/lib/ovn/");
    reveal_strlit(".db");
    let jr = SCRIPT_JOIN_REMOTE@;
    assert(jr =~= jr.take(jr.len() - 23) + "--pidfile=/var/run/ovn/"@);
    assert(SCRIPT_JOIN@ =~= ".db || ovsdb-tool "@ + "join-cluster /var/lib/ovn/"@);
    assert(" tcp:$local_ip:"@ =~= " tcp:"@ + "$local_ip:"@);
    assert(".pid --unixctl=/var/run/ovn/"@ =~= ".pid"@ + " --unixctl=/var/run/ovn/"@);
    assert(".pid --unixctl=/var/run/ovn/"@ =~= ".pid "@ + "--unixctl=/var/run/ovn/"@);
    assert(".ctl --monitor --remote=punix:/var/run/ovn/"@ =~= ".ctl"@ + " --monitor --remote=punix:/var/run/ovn/"@);
    assert(".ctl --monitor --remote=punix:/var/run/ovn/"@ =~= ".ctl --monitor "@ + "--remote=punix:/var/run/ovn/"@);
    assert(".sock --remote=ptcp:"@ =~= ".sock"@ + " --remote=ptcp:"@);
    assert(":$local_ip /var/lib/ovn/"@ =~= ":$local_ip"@ + " /var/lib/ovn/"@);
    reveal_strlit(" ");
    reveal_strlit("tcp:$local_ip:");
    reveal_strlit(".sock ");
    reveal_strlit("--remote=ptcp:");
    assert(" tcp:$local_ip:"@ =~= " "@ + "tcp:$local_ip:"@);
    assert(".sock --remote=ptcp:"@ =~= ".sock "@ + "--remote=ptcp:"@);

}

/// The database script joins the cluster with the file named after `file_prefix`.
#[verifier::rlimit(80)]
proof fn lemma_script_joins_with_prefix(db_name: Seq<char>, file_prefix: Seq<char>, client_port: u16, cluster_port: u16)
    ensures
        has_text(spec_ovsdb_script(db_name, file_prefix, client_port, cluster_port), "join-cluster /var/lib/ovn/"@ + file_prefix + ".db "@ + db_name + " tcp:"@),
{
    lemma_script_pieces();
    let script = spec_ovsdb_script(db_name, file_prefix, client_port, cluster_port);
    let fp = file_prefix;
    let db = db_name;
    let c = decimal_seq(cluster_port as nat);
    let k = decimal_seq(client_port as nat);
    let jr = SCRIPT_JOIN_REMOTE@;
    let jr_head = jr.take(jr.len() - 23);
    let head = SCRIPT_START@ + fp;
    let mid1 = c + " tcp:10.4.0.31:"@ + c;
    let t = "join-cluster /var/lib/ovn/"@ + fp + ".db "@ + db + " tcp:"@;
    let a = head + ".db || ovsdb-tool "@;
    let b = "$local_ip:"@ + mid1 + jr + fp + ".pid --unixctl=/var/run/ovn/"@ + fp + ".ctl --monitor --remote=punix:/var/run/ovn/"@ + fp + ".sock --remote=ptcp:"@ + k + ":$local_ip /var/lib/ovn/"@ + fp + ".db"@;
    assert(script =~= a + t + b);
    lemma_has_text_middle(a, t, b);
}

/// The database server's pid file is named after `file_prefix`.
#[verifier::rlimit(80)]
proof fn lemma_script_pid_file(db_name: Seq<char>, file_prefix: Seq<char>, client_port: u16, cluster_port: u16)
    ensures
        has_text(spec_ovsdb_script(db_name, file_prefix, client_port, cluster_port), "--pidfile=/var/run/ovn/"@ + file_prefix + ".pid"@),
{
    lemma_script_pieces();
    let script = spec_ovsdb_script(db_name, file_prefix, client_port, cluster_port);
    let fp = file_prefix;
    let db = db_name;
    let c = decimal_seq(cluster_port as nat);
    let k = decimal_seq(client_port as nat);
    let jr = SCRIPT_JOIN_REMOTE@;
    let jr_head = jr.take(jr.len() - 23);
    let head = SCRIPT_START@ + fp;
    let mid1 = c + " tcp:10.4.0.31:"@ + c;
    let t = "--pidfile=/var/run/ovn/"@ + fp + ".pid"@;
    let a = head + SCRIPT_JOIN@ + fp + ".db "@ + db + " tcp:$local_ip:"@ + mid1 + jr_head;
    let b = " --unixctl=/var/run/ovn/"@ + fp + ".ctl --monitor --remote=punix:/var/run/ovn/"@ + fp + ".sock --remote=ptcp:"@ + k + ":$local_ip /var/lib/ovn/"@ + fp + ".db"@;
    assert(script =~= a + t + b);
    lemma_has_text_middle(a, t, b);
}

/// The database server's control socket is named after `file_prefix`.
#[verifier::rlimit(80)]
proof fn lemma_script_control_socket(db_name: Seq<char>, file_prefix: Seq<char>, client_port: u16, cluster_port: u16)
    ensures
        has_text(spec_ovsdb_script(db_name, file_prefix, client_port, cluster_port), "--unixctl=/var/run/ovn/"@ + file_prefix + ".ctl"@),
{
    lemma_script_pieces();
    let script = spec_ovsdb_script(db_name, file_prefix, client_port, cluster_port);
    let fp = file_prefix;
    let db = db_name;
    let c = decimal_seq(cluster_port as nat);
    let k = decimal_seq(client_port as nat);
    let jr = SCRIPT_JOIN_REMOTE@;
    let jr_head = jr.take(jr.len() - 23);
    let head = SCRIPT_START@ + fp;
    let mid1 = c + " tcp:10.4.0.31:"@ + c;
    let t = "--unixctl=/var/run/ovn/"@ + fp + ".ctl"@;
    let a = head + SCRIPT_JOIN@ + fp + ".db "@ + db + " tcp:$local_ip:"@ + mid1 + jr + fp + ".pid "@;
    let b = " --monitor --remote=punix:/var/run/ovn/"@ + fp + ".sock --remote=ptcp:"@ + k + ":$local_ip /var/lib/ovn/"@ + fp + ".db"@;
    assert(script =~= a + t + b);
    lemma_has_text_middle(a, t, b);
}

/// The database server's client socket is named after `file_prefix`.
#[verifier::rlimit(80)]
proof fn lemma_script_client_socket(db_name: Seq<char>, file_prefix: Seq<char>, client_port: u16, cluster_port: u16)
    ensures
        has_text(spec_ovsdb_script(db_name, file_prefix, client_port, cluster_port), "--remote=punix:/var/run/ovn/"@ + file_prefix + ".sock"@),
{
    lemma_script_pieces();
    let script = spec_ovsdb_script(db_name, file_prefix, client_port, cluster_port);
    let fp = file_prefix;
    let db = db_name;
    let c = decimal_seq(cluster_port as nat);
    let k = decimal_seq(client_port as nat);
    let jr = SCRIPT_JOIN_REMOTE@;
    let jr_head = jr.take(jr.len() - 23);
    let head = SCRIPT_START@ + fp;
    let mid1 = c + " tcp:10.4.0.31:"@ + c;
    let t = "--remote=punix:/var/run/ovn/"@ + fp + ".sock"@;
    let a = head + SCRIPT_JOIN@ + fp + ".db "@ + db + " tcp:$local_ip:"@ + mid1 + jr + fp + ".pid --unixctl=/var/run/ovn/"@ + fp + ".ctl --monitor "@;
    let b = " --remote=ptcp:"@ + k + ":$local_ip /var/lib/ovn/"@ + fp + ".db"@;
    assert(script =~= a + t + b);
    lemma_has_text_middle(a, t, b);
}

/// The database server serves the file named after `file_prefix`, the script's last
/// word.
#[verifier::rlimit(80)]
proof fn lemma_script_database_file(db_name: Seq<char>, file_prefix: Seq<char>, client_port: u16, cluster_port: u16)
    ensures
        spec_ovsdb_script(db_name, file_prefix, client_port, cluster_port).len() >= (" /var/lib/ovn/"@ + file_prefix
            + ".db"@).len(),
        spec_ovsdb_script(db_name, file_prefix, client_port, cluster_port).skip(
            spec_ovsdb_script(db_name, file_prefix, client_port, cluster_port).len() - (" /var/lib/ovn/"@
                + file_prefix + ".db"@).len(),
        ) == " /var/lib/ovn/"@ + file_prefix + ".db"@,
        has_text(spec_ovsdb_script(db_name, file_prefix, client_port, cluster_port), " /var/lib/ovn/"@ + file_prefix + ".db"@),
{
    lemma_script_pieces();
    let script = spec_ovsdb_script(db_name, file_prefix, client_port, cluster_port);
    let fp = file_prefix;
    let db = db_name;
    let c = decimal_seq(cluster_port as nat);
    let k = decimal_seq(client_port as nat);
    let jr = SCRIPT_JOIN_REMOTE@;
    let jr_head = jr.take(jr.len() - 23);
    let head = SCRIPT_START@ + fp;
    let mid1 = c + " tcp:10.4.0.31:"@ + c;
    let t = " /var/lib/ovn/"@ + fp + ".db"@;
    let a = head + SCRIPT_JOIN@ + fp + ".db "@ + db + " tcp:$local_ip:"@ + mid1 + jr + fp + ".pid --unixctl=/var/run/ovn/"@ + fp + ".ctl --monitor --remote=punix:/var/run/ovn/"@ + fp + ".sock --remote=ptcp:"@ + k + ":$local_ip"@;
    assert(script =~= a + t);
    assert(a + t =~= a + t + Seq::<char>::empty());
    lemma_has_text_middle(a, t, Seq::<char>::empty());
    assert(script.skip(script.len() - t.len()) =~= t);
}

/// The database server listens for clients on `client_port`.
#[verifier::rlimit(80)]
proof fn lemma_script_client_port(db_name: Seq<char>, file_prefix: Seq<char>, client_port: u16, cluster_port: u16)
    ensures
        has_text(
            spec_ovsdb_script(db_name, file_prefix, client_port, cluster_port),
            "--remote=ptcp:"@ + decimal_seq(client_port as nat) + ":$local_ip"@,
        ),
{
    lemma_script_pieces();
    let script = spec_ovsdb_script(db_name, file_prefix, client_port, cluster_port);
    let fp = file_prefix;
    let db = db_name;
    let c = decimal_seq(cluster_port as nat);
    let k = decimal_seq(client_port as nat);
    let jr = SCRIPT_JOIN_REMOTE@;
    let head = SCRIPT_START@ + fp;
    let t = "--remote=ptcp:"@ + k + ":$local_ip"@;
    let a = head + SCRIPT_JOIN@ + fp + ".db "@ + db + " tcp:$local_ip:"@ + c + " tcp:10.4.0.31:"@ + c + jr + fp
        + ".pid --unixctl=/var/run/ovn/"@ + fp + ".ctl --monitor --remote=punix:/var/run/ovn/"@ + fp + ".sock "@;
    let b = " /var/lib/ovn/"@ + fp + ".db"@;
    assert(script =~= a + t + b);
    lemma_has_text_middle(a, t, b);
}

/// The database joins its raft cluster on `cluster_port`, locally and at the first
/// member.
#[verifier::rlimit(80)]
proof fn lemma_script_cluster_port(db_name: Seq<char>, file_prefix: Seq<char>, client_port: u16, cluster_port: u16)
    ensures
        has_text(
            spec_ovsdb_script(db_name, file_prefix, client_port, cluster_port),
            "tcp:$local_ip:"@ + decimal_seq(cluster_port as nat) + " tcp:10.4.0.31:"@ + decimal_seq(
                cluster_port as nat,
            ),
        ),
{
    lemma_script_pieces();
    let script = spec_ovsdb_script(db_name, file_prefix, client_port, cluster_port);
    let fp = file_prefix;
    let db = db_name;
    let c = decimal_seq(cluster_port as nat);
    let k = decimal_seq(client_port as nat);
    let jr = SCRIPT_JOIN_REMOTE@;
    let head = SCRIPT_START@ + fp;
    let t = "tcp:$local_ip:"@ + c + " tcp:10.4.0.31:"@ + c;
    let a = head + SCRIPT_JOIN@ + fp + ".db "@ + db + " "@;
    let b = jr + fp + ".pid --unixctl=/var/run/ovn/"@ + fp + ".ctl --monitor --remote=punix:/var/run/ovn/"@ + fp
        + ".sock --remote=ptcp:"@ + k + ":$local_ip /var/lib/ovn/"@ + fp + ".db"@;
    assert(script =~= a + t + b);
    lemma_has_text_middle(a, t, b);
}

/// The database script names each file of the server after `file_prefix`.
proof fn lemma_script_names_files(db_name: Seq<char>, file_prefix: Seq<char>, client_port: u16, cluster_port: u16)
    ensures
        has_text(
            spec_ovsdb_script(db_name, file_prefix, client_port, cluster_port),
            "join-cluster /var/lib/ovn/"@ + file_prefix + ".db "@ + db_name + " tcp:"@,
        ),
        has_text(
            spec_ovsdb_script(db_name, file_prefix, client_port, cluster_port),
            "--pidfile=/var/run/ovn/"@ + file_prefix + ".pid"@,
        ),
        has_text(
            spec_ovsdb_script(db_name, file_prefix, client_port, cluster_port),
            "--unixctl=/var/run/ovn/"@ + file_prefix + ".ctl"@,
        ),
        has_text(
            spec_ovsdb_script(db_name, file_prefix, client_port, cluster_port),
            "--remote=punix:/var/run/ovn/"@ + file_prefix + ".sock"@,
        ),
        has_text(spec_ovsdb_script(db_name, file_prefix, client_port, cluster_port), " /var/lib/ovn/"@ + file_prefix + ".db"@),
        spec_ovsdb_script(db_name, file_prefix, client_port, cluster_port).len() >= (" /var/lib/ovn/"@ + file_prefix
            + ".db"@).len(),
        spec_ovsdb_script(db_name, file_prefix, client_port, cluster_port).skip(
            spec_ovsdb_script(db_name, file_prefix, client_port, cluster_port).len() - (" /var/lib/ovn/"@
                + file_prefix + ".db"@).len(),
        ) == " /var/lib/ovn/"@ + file_prefix + ".db"@,
        has_text(
            spec_ovsdb_script(db_name, file_prefix, client_port, cluster_port),
            "--remote=ptcp:"@ + decimal_seq(client_port as nat) + ":$local_ip"@,
        ),
        has_text(
            spec_ovsdb_script(db_name, file_prefix, client_port, cluster_port),
            "tcp:$local_ip:"@ + decimal_seq(cluster_port as nat) + " tcp:10.4.0.31:"@ + decimal_seq(
                cluster_port as nat,
            ),
        ),
{
    lemma_script_joins_with_prefix(db_name, file_prefix, client_port, cluster_port);
    lemma_script_pid_file(db_name, file_prefix, client_port, cluster_port);
    lemma_script_control_socket(db_name, file_prefix, client_port, cluster_port);
    lemma_script_client_socket(db_name, file_prefix, client_port, cluster_port);
    lemma_script_database_file(db_name, file_prefix, client_port, cluster_port);
    lemma_script_client_port(db_name, file_prefix, client_port, cluster_port);
    lemma_script_cluster_port(db_name, file_prefix, client_port, cluster_port);
}

} // verus!
