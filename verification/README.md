# wiab_app

The decision logic of the workinabox application layer, verified with Verus.

The use cases of the backend (meetings, teams, agents, tasks, pull requests, access
control, the event outbox) are thin orchestrations over the domain model and its
repositories. What they decide on their own is in `src/`, each function with a contract:

- `text`: trimming and whitespace splitting by the Unicode `White_Space` property, the
  normalised tokens of a transcript line, and echo detection.
- `meeting_application_service`: laying out a new meeting from its request (seats,
  moderator, agenda, refusals in order), and the step machine that handles a transcript
  line, from echo screening to the agent's spoken reply.
- `listing`: the orders listings come back in, and the task a team is holding.
- `authorization_service`: organization roles, ownership, token scoping, and the role
  that decides a request on a repo, with the law of authorization.
- `outbox_publisher`: the publish pass, which retires only what the broker accepted,
  oldest first, and stops at the first refusal.
- `user_application_service`: resolving a login email, and resolving a presented access
  token to its owner and scope (an unknown or expired token resolves to nothing).
- `vm_application_service`: provisioning a VM, from the resources it asks for to the
  spec the runtime boots and what a failed boot leaves behind.
- `team_application_service`: creating a team under existing parents, starting it, and
  stopping it (its VM first, when it has one).
- `pull_request_application_service`: opening a request on real branches of an existing
  repo, and merging one.
- `agent_application_service`, `concurrency`: what the remaining use cases decide.
- the `*_requests` modules, `vm_runtime` and `messaging`: request bodies and port errors.

`app/` holds what waits on the outside world: the request bodies as serde reads them, the
errors with `Display`, the messaging and VM runtime ports, and the loop that drains the
outbox through the verified publish pass.
