# gmutils

Command-line tools for DHTTP networking: identities and their certificates, a local forward
proxy, requests, name lookups and NAT diagnosis.

The rules of the tools are a verified library. Every function of `src/` states what it returns or
changes, and [Verus](https://github.com/verus-lang/verus) proves it.

## Layout

- `src/` is the library. It reads no file, opens no connection and asks no question: it is handed
  plain values and gives back plain values. Longer commands are state machines. Such a machine
  tells the next action, and is told what came of it.
  - Names and targets: `target`, `kind`, `validator`.
  - The certificate server: `cert_server` reads its answers, `requests` builds its requests,
    `json` is the document both share.
  - Commands: `apply`, `renew`, `default_identity`, `site`, `welcome`, `cli`, and the parts they
    share: `auth`, `auth_plan`, `email`, `recovery`, `registration`, `checkout`, `install`,
    `key_material`, `certificate_log`, `epilogue`, `auto_renew`, `device`.
  - Creating identities step by step: `create`, `create_flow`, `create_run`, `approval`.
  - What is saved on this machine: `local`, `local_identity`.
  - What is shown: `output`, `calendar`, `progress`, `prompt`, `transcript`.
  - Tools: `proxy` and `route`, `request`, `nslookup`, `nat_detect`, `profile`,
    `identity_loading`.
  - `text` holds the operations on strings that the others are stated with.
- `app/` is the `genmeta` program around the library: arguments, prompts, files, processes and
  connections.
- `tests/` runs the library.

## What is trusted

Calls into other crates stand behind small functions marked `external_body`. The comment above
each says which function it calls and what its contract claims. Where a result takes pages to
describe (a parsed certificate, a QR code), it has a name, and the contracts speak of that name.

The `pub proof fn` items are the laws of the library. They state what holds across several calls:
what a machine never does, what one call undoes, what stays as it is.
