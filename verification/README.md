# socks5_server

The server's side of SOCKS version 5 (RFC 1928, and RFC 1929 for usernames and passwords),
verified with Verus.

The library in `src/` never touches a socket. `Socks5Socket::upgrade_to_socks5` starts the
service of a client; from then on `Upgrade::action` says what has to be done next, and
`Upgrade::resume` takes in how it went. The decisions of the protocol are made there: which
authentication method is chosen, what follows from the authentication's answer, what is
replied, and which command is executed. `UdpRelay` does the same for the datagrams of a
client. How a connection failed is for the driver to say, in a `Fault`.

- `consts`, `reply`, `command`, `addr`, `target`, `error`: the values of the protocol.
- `config`, `auth`, `server`, `socket`: settings, authentication, and what is known of a
  client.
- `message`, `states`, `protocol`: the messages, one by one, in the states of the protocol.
- `upgrade`: the service of a client, from one action to the next.
- `udp`, `relay`: the datagrams that are relayed, one by one and one after the other.
- `wire`, `runs`, `service`: what holds of the messages and of the service as a whole.

`app/` holds the sockets: a server over tokio that performs the actions. `tests/` serves
clients over streams in memory.
