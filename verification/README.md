# vps_config

Remote VPS provisioning: reach a fresh host over SSH, detect its distribution, and apply
security hardening, services and development tools to it.

- `src/` is the verified library. Each provisioning module (`modules/`) is a state machine:
  `start` and `resume` say which remote command to run next and what to print, given what
  the previous command answered; their contracts state every transition, and proof
  functions state the safety rules (SSH password login is switched off only after a key
  was found, a failed `sshd` restart is rolled back, the firewall admits SSH before it is
  switched on, saves its configuration before changing it and, when a later command fails,
  puts that configuration back and returns the firewall to the running state it was found
  in, installed software is left alone, a command that exits with a status other than 0
  counts as failed). `os/` holds the os-release parser and
  the package managers, `ssh/` the command preparation for `sudo`, the choice between key and
  password login, and the checks on a command's exit status, `cli/` and `config/` the configuration and the wizard's rules.
- `app/` is the program: command line, configuration file, interactive prompts, the SSH
  connection, and the loop that performs the modules' actions.
- `tests/` runs the library on concrete values.
