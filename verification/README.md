# chat_app

A peer-to-peer chat with one server and many clients. The library in `src/` holds
what the tasks of both programs decide, with Verus contracts and proofs:

- `data`: the values that travel between the tasks and over the network;
- `frame`: the one-byte length framing of serialised values on a stream;
- `room_id`: fresh room identifiers made of random decimal digits;
- `room_list`: the room list that a window shows;
- `server`: room membership and message fan-out (`app`), the network task
  (`server`), the protocol handler (`protocol`) and the window's dispatch (`interface`);
- `client`: the user's session (`app`), the network task (`client`), the protocol
  handler (`protocol`) and the window's dispatch and chat log (`interface`);
- `exchange`: what a client's request becomes on its way to the server and back.

`app/` is the server program: channels, iroh connections, postcard, and the sqlite
store, driven by the library's decisions.
