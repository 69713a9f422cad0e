# openauth-plugins

The decision logic of a set of OpenAuth plugins, written in Verus and proved
against its contracts:

- `email_otp`: one-time codes sent by e-mail: identifiers, generation,
  plain or hashed storage, the `code:attempts` record, and the rules of the
  send, check, sign-in, password and change-of-address endpoints.
- `mcp`: the Model Context Protocol OAuth plugin: settings, the
  resource-server client (challenge, 401 and CORS answers, bearer tokens),
  discovery metadata, dynamic client registration and the authorization
  request.
- `organization`: roles and permissions, and every organization, member,
  invitation and team request as a step function that either asks for a
  store lookup, refuses, or proceeds.
- `multi_session`, `haveibeenpwned`: the multi-session admission rule and
  the compromised-password settings.
- `schema`, `response`, `text`, `crypto`: shared descriptions, character
  sequence primitives, and the calls into `sha2`, `base64`, `rand`, `url`,
  `http` and `serde_json`, each behind a small trusted wrapper.

`src/` is the verified library; `tests/` exercises it on concrete values;
`app/` converts its plain values to `http`, JSON and the OpenAuth core's
types, and drives the step functions against a store, a mailer and the
session cookies through small backend traits.
