# client

The decision core of a Ragnarok Online game client, verified with Verus.

The client reacts to server events, to the player's requests and clicks,
and to what the player types. The reactions that decide on plain values
are functions here, from the client's own state (`App`) and the event to
the new state and a list of `Effect`s: chat lines, dialogs, packets to
send, and changes for the renderer, sound and windows to carry out.
`handle_server_event`, `handle_ui_event` and `handle_left_click` are the
entry points. What runs on floating point, the clock, the renderer or the
entity store (animation, movement, the camera, map loading) is not here.
Every function states its result in its contract, and the properties
that span several calls (a toggle given twice, a relation recorded once,
a member who leaves is gone, any 2^31 successive entity-effect keys
differ from each other and from skill-unit keys) are proved as lemmas.

## Layout

- `src/` — the verified library.
  - `app.rs`: the client state (`App`, preferences, settings, pending
    requests, the attack).
  - `effects.rs`: what the decisions hand on.
  - `events.rs`, `ui_events.rs`, `click.rs`: the server's events, the
    player's requests and the left click, each handed to its decision.
  - `options.rs`: what a change of an entity's option words sets off.
  - `command.rs`, `slash.rs`: typed chat lines and the slash commands.
  - `chat.rs`, `notice.rs`: chat-window reactions and message-table notices.
  - `party.rs`, `guild.rs`, `social.rs`, `trade.rs`: groups, friends,
    questions put to the player and their answers, and trading.
  - `requests.rs`: the player's requests from the windows, and what is
    kept for the server's answer.
  - `config.rs`: the per-character configuration the server reports.
  - `shops.rs`, `production.rs`: shops, storage, mail, refining and making.
  - `effect_id.rs`, `effect_keys.rs`: visual effects and the keys of those
    attached to entities (auras, portals).
  - `world.rs`, `combat.rs`, `companions.rs`, `player.rs`, `pvp.rs`:
    ground units, the attack, companions, the player's look and PvP ranks.
  - `connection.rs`, `session.rs`: connections and what a session change
    resets.
  - `text.rs`, `seqs.rs`: decimal rendering, whitespace, chat-line
    splitting and sequence helpers.
- `tests/` — tests of the library on concrete values.
- `app/` — the code around the library: carrying out effects, window
  sizes in floating point, and the checks made before calling decisions
  with preconditions.
