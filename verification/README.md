# Steel Proxy

A Minecraft proxy for Steel servers, written in Rust and proved with Verus. Players reach several
backend servers through one address and go from one to the other with `/server <name>`. With
`/start <pr_number>` they have a pull request built on Jenkins and run on Kubernetes, and with
`/status <pr_number>` they ask how it is doing.

## Layout

- `src/` is the library, all of it verified: the packets that the proxy reads and makes (`codec`,
  `packets`), the way of a client to its server and of packets between the two (`proxy`), the
  lifecycle of pull requests from build to shutdown (`k8s`), what is asked of Jenkins, GitHub and
  the database (`jenkins`, `github`, `db`), and the settings (`config`). It does no input or output:
  where the proxy works with the outside, a function says what to do next, and another takes the
  answer.
- `app/` is the program round it: sockets, files, the database, web requests and the cluster.
- `tests/` runs the library on concrete values.

The laws of the library are public proof functions beside what they speak of: for instance that a
player who asks for a server reaches it at the next login
(`proxy::packet_forwarder::switch_leads_to_the_server`), that packets are forwarded unchanged
(`other_packets_reach_the_backend`, `other_packets_reach_the_client`), and that exactly the pull
requests with a ready instance are offered (`k8s::lifecycle::events_keep_offers`). What a whole turn
of the lifecycle, a round of turns and the walk over the records at the start come to is in
`k8s::turn` and `k8s::recovery`.

## Trusted

Three functions are believed rather than proved: `codec::utf8_text` round `String::from_utf8`, and
`json::text_at` and `json::bool_at` round the JSON parser of `serde_json`.
