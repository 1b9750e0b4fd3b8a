# yaoi

TCP client pools, listeners and streams over io_uring, with HugeTLB-backed
streaming buffers and blueprint orbits running over each stream.

`src/` is the library, verified with Verus:

- `strategy`: listener strategies and the capacities they carry.
- `capacity`: what the io_uring bearer is planned with for a pool or a listener.
- `cmaps`: completions as plain values, and what pools and listeners record
  for each and whether its submission record is kept.
- `tcp_stream`: streams, connected entities, and the streaming HugeTLB entity;
  `cursor` holds where unread input and unsent output lie in the buffer rings,
  the sends that hand output to the kernel and the buffers handed back;
  `intermed` holds the buffers between orbits.
- `tcp_pool`, `tcp_listener`: the slot pools (the slots by fixed filehandle,
  kept in a `hashbrown` map, and the counts of client slots in each state),
  what a Connect or an Accept leads to, and registration maps.
- `hugetlb`: the HugeTLB page size setting, settable once.
- `blueprints`: the orbits a stream runs through.
- `error`: the library's errors and their messages.

`app/` holds what needs the kernel or unsafe memory: the bearer, syscalls,
HugeTLB mappings, zero-copy sends, handing buffers back to the ring, user
callbacks and the blueprint trait impls; it follows the library's decisions.
