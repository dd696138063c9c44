# Houston Cloud control plane

The control plane of a multi-tenant service in which each authenticated user has an isolated engine.
It verifies Supabase JWTs, provisions each tenant's objects in Kubernetes, keeps track of tenants in
a store behind PostgREST, answers the Gateway's authorization requests, and suspends idle tenants.

`src/` is the library. It is written in Verus: every function states what it returns, and every
contract is proved. `app/` is the server around it, which does the waiting: HTTP, the Kubernetes API,
the clock of the sweeper, the environment.

| Module | What it decides |
|---|---|
| `auth` | which JWTs are accepted, and with which keys they are checked |
| `tenant`, `store` | tenants, their IDs and tokens; requests to the store and what replies mean |
| `k8s` | the manifests of a tenant's objects and the operations on them |
| `routes`, `session` | what each request asks for, step by step, and how it is answered |
| `idle_sweeper` | which tenants are suspended, in which batches |
| `settings` | what follows from the environment |
| `effects` | what requests ask of the world, and what comes back |
| `json`, `text`, `hex`, `header`, `clock` | the material that the others are made of |

`laws`, `auth::laws` and `k8s::laws` state what holds of the library as a whole, such as that no API
response shows an engine token while the Gateway is on, that only verified users are served, that
tenant pods run without privileges, that provisioning is idempotent, and that every flow ends.

A few functions call outside crates (`jsonwebtoken`, `serde_json`, `base64`, `chrono`, `rand`,
`axum`'s header values). Each such call stands behind a small function whose doc comment says what is
taken on trust.
