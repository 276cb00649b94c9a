# Janitor services

Three services that look after automated changes to Debian packages:

* `publish` turns the results of runs into branch pushes and merge proposals, and
  keeps the proposals that are open up to date.
* `differ` tells how the packages that two runs have built differ.
* `auto-upload` signs and uploads packages that were built.

## Layout

* `src/` is the library. It decides, parses and counts, and every function in it is
  verified with Verus. What waits for the outside world (a database, a forge, another
  process) is a state machine: `next` says what to do, and a `note_…` method takes down
  what came of it.
* `app/` is the program. It performs the steps that the library decides on.
* `tests/` runs the library.

## Configuration

All services read a JSON file, `janitor.conf` where no other is named:

```json
{
  "database_location": "postgresql://localhost/janitor",
  "redis_location": "redis://localhost",
  "artifact_location": "/srv/artifacts",
  "git_location": "https://localhost/git",
  "bzr_location": "https://localhost/bzr",
  "campaign": [
    {
      "name": "lintian-fixes",
      "branch_name": "lintian-fixes",
      "merge_proposal": { "value_threshold": 10 }
    }
  ]
}
```
