# js_realm

Realm records of an ECMAScript engine, verified with Verus.

A `Realm` is a reference into a `Heap`, which holds what each realm consists of: its
intrinsics, its global environment and scope, its global object and global `this`, its
template objects, modules and host classes, and what the host attaches to it. The engine's
own values, which a realm carries along without looking into them, come in through the
`Engine` trait, the choices of a host through `HostHooks`, and the internal methods of
exotic objects through `Context`.

- `src/realm.rs`: the realm record and its operations.
- `src/state.rs`: what realms and heaps are, mathematically, and what the operations make
  of them.
- `src/laws.rs`: what holds of realms across operations, above all that the window in which
  a host may install a global `this` closes for good.
- `src/object.rs`, `src/string.rs`, `src/environment.rs`, `src/class.rs`, `src/error.rs`:
  the values that realms deal in.
- `src/fx_map.rs`: the `rustc_hash` maps, whose contracts are trusted. `src/class.rs` trusts
  `TypeId::of` and the `==` of `TypeId`.
- `app/`: debug output.
