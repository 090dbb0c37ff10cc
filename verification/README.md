# Twilight Sword

A Discord bot for tickets and moderation logs. Users open tickets through a
category menu and a modal; each ticket gets a private thread on the user's side and a
forum thread on the staff's side, and messages are relayed between the two. Moderation
actions from the audit log are recorded, and moderators who act without a reason are
reminded to give one.

- `src/` is the library, verified with Verus: the configuration reader, ticket
  categories and their menus, the ticket submission steps, message relaying and
  replies, setup and settings decisions, routing of component IDs, paged menus, the
  session store, moderation records and the texts the bot answers with. Calls into
  `kdl`, `cuid2`, `twilight-util` and `twilight-model` stand behind small trusted
  wrappers whose contracts are documented where they are declared.
- `tests/` runs the library on concrete values.
- `app/` is the program around it: the gateway loop, HTTP requests, the database and
  the conversion of the library's plain values into Discord's models.
