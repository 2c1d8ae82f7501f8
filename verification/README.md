# cluster_manager

The verified core of a Kubernetes controller for a virtualization cluster: virtual
machines scheduled on libvirt hypervisors, their Ceph volumes and images, and their OVN
networks and routers.

- `src/` is the library, verified with Verus. It holds the decisions of the
  controllers and the documents they send:
  - `cluster::libvirt`: scheduling (maintenance, migration requests, anti-affinity),
    filling in MAC addresses, OVN port identifiers and UUIDs, and the steps of the
    virtual machine and node controllers;
  - `cluster::ceph`: reading librados lists and replies, and which images to create,
    clone or remove;
  - `cluster::ovn`: the OVSDB operations for switches, routers, ports and DHCP, and the
    JSON-RPC messages that carry them;
  - `cluster::controllers`, `cluster::daemonset`, `cluster::manifest`: the daemon sets
    the controller applies;
  - `crd`, `meta`, `json`, `text`: the resources, their metadata, JSON values and text
    helpers.
- `app/` runs the controllers: the Kubernetes API, the OVSDB connection, the librados
  and librbd calls.
- `tests/` exercises the library on concrete values.
