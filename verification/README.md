# mail

The backend of a postal service driven by a smart contract: it scans chains
for mail events, turns each into a contact and a letter, and sends the letter
through a print-mail API.

- `src/` is the verified library: the contact and letter records and the API
  requests built from them (`api`), the settings (`config`), the decryption of
  encrypted event fields (`crypto`), the handling of one event (`event`), the
  checkpoints with which a scan resumes (`checkpoint`, `decimal`), the text of
  chain values (`chain`) and the path of a letter's PDF (`pdf`).
- `app/` is the program around it: environment, network, files, PDF rendering
  and the scan loop.
- `tests/` runs the library on concrete values.
