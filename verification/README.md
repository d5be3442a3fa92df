# Postil

`postil` reviews a pull request, or a diff at hand, with a language model and turns what comes
back into findings, a check run and an exit code.

```bash
postil review --repo owner/repo --pr 123 --sha HEAD_SHA
postil review --staged
```

Settings come from flags, then from the environment, then from the file given by `--config`, then
from the built-in defaults.

## Layout

- `src/` is the library. Every function states in its contract what it returns, and Verus proves
  it: the settings of a run (`config`), the prompt, and the reading and writing of reviews (`review`,
  `json`, `ignore`), what is asked of GitHub and of the model provider and what is made of the
  answers (`github`, `openrouter`), diffs at hand (`local`), and the course of a run (`run`).
  `chars` and `text` hold what these need of texts. The proof functions called `law_*` state what
  holds across functions.
- `app/` is the program around the library: arguments, files, `git` and HTTP.
- `tests/` runs the library.

What is believed without proof stands in `src/json.rs` and `src/ignore.rs`: the calls into
`serde_json` and `globset`.
